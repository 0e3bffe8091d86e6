//! Resolucion de conflictos: decide, como funcion pura sobre las reservas
//! existentes, si un intervalo propuesto se solapa con alguna reserva no
//! cancelada de la misma cabana y fecha. El motor la ejecuta dentro de la
//! misma operacion que inserta la fila, de modo que de dos pedidos
//! solapados aplicados uno tras otro a lo sumo uno se persiste.

use vstd::prelude::*;

use crate::almacen::Almacen;
use crate::modelos::{EstadoReserva, NewReserva, Reserva, solapan};

verus! {

/// La reserva persistida `r` choca con el intervalo propuesto
/// `[inicio, fin)` para la cabana y fecha dadas: misma cabana, misma
/// fecha, no cancelada, e intervalos solapados bajo la regla semiabierta.
pub open spec fn choca(r: Reserva, cabana: i32, fecha: i32, inicio: u32, fin: u32) -> bool {
    &&& r.cabana_id == cabana
    &&& r.fecha_reserva == fecha
    &&& r.estado != EstadoReserva::Cancelada
    &&& r.hora_inicio < fin
    &&& r.hora_fin > inicio
}

/// Alguna reserva de la secuencia choca con el intervalo propuesto.
pub open spec fn hay_conflicto(
    reservas: Seq<Reserva>,
    cabana: i32,
    fecha: i32,
    inicio: u32,
    fin: u32,
) -> bool {
    exists|i: int| 0 <= i < reservas.len() && choca(reservas[i], cabana, fecha, inicio, fin)
}

/// Devuelve `true` si existe solapamiento para (cabana, fecha,
/// `[inicio_nuevo, fin_nuevo)`) entre las reservas dadas. Tocarse en un
/// extremo no es solape, y las reservas canceladas no cuentan.
pub fn existe_conflicto(
    reservas: &Vec<Reserva>,
    cabana: i32,
    fecha: i32,
    inicio_nuevo: u32,
    fin_nuevo: u32,
) -> (hay: bool)
    ensures
        hay == hay_conflicto(reservas@, cabana, fecha, inicio_nuevo, fin_nuevo),
{
    let mut i: usize = 0;
    while i < reservas.len()
        invariant
            i <= reservas@.len(),
            forall|j: int|
                0 <= j < i ==> !choca(reservas@[j], cabana, fecha, inicio_nuevo, fin_nuevo),
        decreases reservas@.len() - i,
    {
        let r = &reservas[i];
        if r.cabana_id == cabana && r.fecha_reserva == fecha && !matches!(
            r.estado,
            EstadoReserva::Cancelada,
        ) && r.hora_inicio < fin_nuevo && r.hora_fin > inicio_nuevo {
            return true;
        }
        i = i + 1;
    }
    false
}

/// Invariante de solape, leido sobre un almacen bien formado: dos reservas
/// persistidas distintas de la misma cabana y fecha, ninguna cancelada,
/// nunca tienen `inicio1 < fin2` y `fin1 > inicio2` a la vez.
pub proof fn lema_invariante_sin_solape(alm: Almacen, i: int, j: int)
    requires
        alm.bien_formado(),
        0 <= i < alm.reservas@.len(),
        0 <= j < alm.reservas@.len(),
        i != j,
        alm.reservas@[i].cabana_id == alm.reservas@[j].cabana_id,
        alm.reservas@[i].fecha_reserva == alm.reservas@[j].fecha_reserva,
        alm.reservas@[i].estado != EstadoReserva::Cancelada,
        alm.reservas@[j].estado != EstadoReserva::Cancelada,
    ensures
        !solapan(alm.reservas@[i], alm.reservas@[j]),
{
    assert(!crate::modelos::en_conflicto(alm.reservas@[i], alm.reservas@[j]));
}

/// De dos pedidos solapados para la misma cabana y fecha, aplicados uno
/// tras otro (el almacenamiento serializa las transacciones concurrentes),
/// el que llega segundo encuentra la fila del primero y choca con ella:
/// nunca se persisten los dos.
pub proof fn lema_doble_reserva(reservas: Seq<Reserva>, r1: Reserva, n2: NewReserva)
    requires
        r1.estado != EstadoReserva::Cancelada,
        r1.cabana_id == n2.cabana_id,
        r1.fecha_reserva == n2.fecha_reserva,
        r1.hora_inicio < n2.hora_fin,
        n2.hora_inicio < r1.hora_fin,
    ensures
        hay_conflicto(
            reservas.push(r1),
            n2.cabana_id,
            n2.fecha_reserva,
            n2.hora_inicio,
            n2.hora_fin,
        ),
{
    let s = reservas.push(r1);
    assert(s[s.len() - 1] == r1);
    assert(choca(s[s.len() - 1], n2.cabana_id, n2.fecha_reserva, n2.hora_inicio, n2.hora_fin));
}

} // verus!
