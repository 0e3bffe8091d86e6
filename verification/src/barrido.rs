//! Barrido periodico de estados: una pasada idempotente que, con el reloj
//! en (fecha, hora), pone cada reserva de esa fecha en el estado que le
//! corresponde y vuelve a derivar la disponibilidad de cada cabana con
//! reservas ese dia. Toda decision es funcion pura del reloj y de las
//! filas, sin estado propio entre pasadas, por lo que repetirla es seguro.

use vstd::prelude::*;

use crate::almacen::{Almacen, hay_cabana, hay_cliente};
use crate::modelos::{Cabana, EstadoCabana, EstadoReserva, Reserva, en_conflicto};

verus! {

/// La fila que el barrido deja para una reserva: si es de la fecha barrida
/// y no esta cancelada, su estado pasa a `EnCurso` cuando el reloj cae
/// dentro de `[inicio, fin)`, a `Completada` cuando ya paso el fin, y a
/// `Pendiente` cuando todavia no empezo; una reserva cancelada o de otra
/// fecha no se toca.
pub open spec fn estado_barrido(r: Reserva, fecha: i32, hora: u32) -> Reserva {
    if r.fecha_reserva == fecha && r.estado != EstadoReserva::Cancelada {
        Reserva {
            estado: if r.hora_inicio <= hora && hora < r.hora_fin {
                EstadoReserva::EnCurso
            } else if hora >= r.hora_fin {
                EstadoReserva::Completada
            } else {
                EstadoReserva::Pendiente
            },
            ..r
        }
    } else {
        r
    }
}

/// La cabana tiene alguna reserva (cancelada o no) en la fecha dada.
pub open spec fn tiene_reserva_hoy(reservas: Seq<Reserva>, cabana_id: i32, fecha: i32) -> bool {
    exists|i: int|
        0 <= i < reservas.len() && reservas[i].cabana_id == cabana_id
            && reservas[i].fecha_reserva == fecha
}

/// Alguna reserva no cancelada de la cabana en la fecha dada esta en curso
/// con el reloj en `hora`.
pub open spec fn cabana_ocupada_ahora(
    reservas: Seq<Reserva>,
    cabana_id: i32,
    fecha: i32,
    hora: u32,
) -> bool {
    exists|i: int|
        0 <= i < reservas.len() && reservas[i].cabana_id == cabana_id
            && reservas[i].fecha_reserva == fecha
            && reservas[i].estado != EstadoReserva::Cancelada
            && reservas[i].hora_inicio <= hora && hora < reservas[i].hora_fin
}

/// Lo que el barrido deja en una cabana: sin reservas en la fecha no se la
/// toca ni se le escribe nada; con reservas, su disponibilidad termina en
/// `Ocupada` exactamente cuando alguna reserva no cancelada esta en curso
/// (el acumulador del recorrido agrupado solo se enciende dentro de un
/// grupo, de modo que la ultima escritura del grupo refleja eso) y en
/// `Disponible` en caso contrario.
pub open spec fn cabana_barrida(c: Cabana, reservas: Seq<Reserva>, fecha: i32, hora: u32) -> Cabana {
    if tiene_reserva_hoy(reservas, c.id, fecha) {
        Cabana {
            estado: if cabana_ocupada_ahora(reservas, c.id, fecha, hora) {
                EstadoCabana::Ocupada
            } else {
                EstadoCabana::Disponible
            },
            ..c
        }
    } else {
        c
    }
}

/// Relacion entre el almacen antes y despues de una pasada de barrido con
/// el reloj en (fecha, hora): cada reserva queda como dicta
/// `estado_barrido`, cada cabana como dicta `cabana_barrida` sobre las
/// reservas previas, y nada mas cambia.
pub open spec fn es_barrido(antes: Almacen, despues: Almacen, fecha: i32, hora: u32) -> bool {
    &&& despues.clientes@ == antes.clientes@
    &&& despues.proximo_cliente_id == antes.proximo_cliente_id
    &&& despues.proximo_cabana_id == antes.proximo_cabana_id
    &&& despues.proximo_reserva_id == antes.proximo_reserva_id
    &&& despues.reservas@.len() == antes.reservas@.len()
    &&& forall|i: int|
        0 <= i < antes.reservas@.len() ==> despues.reservas@[i] == estado_barrido(
            antes.reservas@[i],
            fecha,
            hora,
        )
    &&& despues.cabanas@.len() == antes.cabanas@.len()
    &&& forall|i: int|
        0 <= i < antes.cabanas@.len() ==> despues.cabanas@[i] == cabana_barrida(
            antes.cabanas@[i],
            antes.reservas@,
            fecha,
            hora,
        )
}

/// Dice si alguna reserva de la cabana cae en la fecha dada.
fn tiene_reserva_hoy_exec(reservas: &Vec<Reserva>, cabana_id: i32, fecha: i32) -> (b: bool)
    ensures
        b == tiene_reserva_hoy(reservas@, cabana_id, fecha),
{
    let mut i: usize = 0;
    while i < reservas.len()
        invariant
            i <= reservas@.len(),
            forall|j: int|
                0 <= j < i ==> !(reservas@[j].cabana_id == cabana_id && reservas@[j].fecha_reserva
                    == fecha),
        decreases reservas@.len() - i,
    {
        if reservas[i].cabana_id == cabana_id && reservas[i].fecha_reserva == fecha {
            return true;
        }
        i = i + 1;
    }
    false
}

/// Dice si alguna reserva no cancelada de la cabana esta en curso.
fn cabana_ocupada_exec(reservas: &Vec<Reserva>, cabana_id: i32, fecha: i32, hora: u32) -> (b: bool)
    ensures
        b == cabana_ocupada_ahora(reservas@, cabana_id, fecha, hora),
{
    let mut i: usize = 0;
    while i < reservas.len()
        invariant
            i <= reservas@.len(),
            forall|j: int|
                0 <= j < i ==> !(reservas@[j].cabana_id == cabana_id && reservas@[j].fecha_reserva
                    == fecha && reservas@[j].estado != EstadoReserva::Cancelada
                    && reservas@[j].hora_inicio <= hora && hora < reservas@[j].hora_fin),
        decreases reservas@.len() - i,
    {
        if reservas[i].cabana_id == cabana_id && reservas[i].fecha_reserva == fecha && !matches!(
            reservas[i].estado,
            EstadoReserva::Cancelada,
        ) && reservas[i].hora_inicio <= hora && hora < reservas[i].hora_fin {
            return true;
        }
        i = i + 1;
    }
    false
}

/// Los campos que miran `tiene_reserva_hoy` y `cabana_ocupada_ahora` no
/// cambian con el barrido de la misma fecha y hora: ambos predicados leen
/// igual antes y despues de la primera fase.
proof fn lema_barrido_estable(ant: Seq<Reserva>, act: Seq<Reserva>, fecha: i32, hora: u32)
    requires
        act.len() == ant.len(),
        forall|j: int| 0 <= j < ant.len() ==> act[j] == estado_barrido(ant[j], fecha, hora),
    ensures
        forall|idc: i32|
            #[trigger] tiene_reserva_hoy(act, idc, fecha) == tiene_reserva_hoy(ant, idc, fecha),
        forall|idc: i32|
            #[trigger] cabana_ocupada_ahora(act, idc, fecha, hora) == cabana_ocupada_ahora(
                ant,
                idc,
                fecha,
                hora,
            ),
{
    assert forall|idc: i32|
        #[trigger] tiene_reserva_hoy(act, idc, fecha) == tiene_reserva_hoy(ant, idc, fecha) by {
        if tiene_reserva_hoy(ant, idc, fecha) {
            let w = choose|w: int|
                0 <= w < ant.len() && ant[w].cabana_id == idc && ant[w].fecha_reserva == fecha;
            assert(act[w].cabana_id == idc && act[w].fecha_reserva == fecha);
        }
        if tiene_reserva_hoy(act, idc, fecha) {
            let w = choose|w: int|
                0 <= w < act.len() && act[w].cabana_id == idc && act[w].fecha_reserva == fecha;
            assert(ant[w].cabana_id == idc && ant[w].fecha_reserva == fecha);
        }
    };
    assert forall|idc: i32|
        #[trigger] cabana_ocupada_ahora(act, idc, fecha, hora) == cabana_ocupada_ahora(
            ant,
            idc,
            fecha,
            hora,
        ) by {
        if cabana_ocupada_ahora(ant, idc, fecha, hora) {
            let w = choose|w: int|
                0 <= w < ant.len() && ant[w].cabana_id == idc && ant[w].fecha_reserva == fecha
                    && ant[w].estado != EstadoReserva::Cancelada && ant[w].hora_inicio <= hora
                    && hora < ant[w].hora_fin;
            assert(act[w].estado != EstadoReserva::Cancelada);
            assert(act[w].cabana_id == idc && act[w].fecha_reserva == fecha && act[w].hora_inicio
                <= hora && hora < act[w].hora_fin);
        }
        if cabana_ocupada_ahora(act, idc, fecha, hora) {
            let w = choose|w: int|
                0 <= w < act.len() && act[w].cabana_id == idc && act[w].fecha_reserva == fecha
                    && act[w].estado != EstadoReserva::Cancelada && act[w].hora_inicio <= hora
                    && hora < act[w].hora_fin;
            assert(ant[w].estado != EstadoReserva::Cancelada);
            assert(ant[w].cabana_id == idc && ant[w].fecha_reserva == fecha && ant[w].hora_inicio
                <= hora && hora < ant[w].hora_fin);
        }
    };
}

/// Una pasada de barrido deja intacta una cabana sin reservas en la fecha
/// barrida: no se le escribe nada, y si estaba disponible sigue
/// disponible.
pub proof fn lema_barrido_cabana_sin_reservas(
    c: Cabana,
    reservas: Seq<Reserva>,
    fecha: i32,
    hora: u32,
)
    requires
        !tiene_reserva_hoy(reservas, c.id, fecha),
    ensures
        cabana_barrida(c, reservas, fecha, hora) == c,
{
}

/// Una pasada con el reloj estrictamente dentro de `[inicio, fin)` de una
/// reserva pendiente de la fecha barrida la pone en curso.
pub proof fn lema_barrido_pone_en_curso(r: Reserva, fecha: i32, hora: u32)
    requires
        r.fecha_reserva == fecha,
        r.estado == EstadoReserva::Pendiente,
        r.hora_inicio <= hora,
        hora < r.hora_fin,
    ensures
        estado_barrido(r, fecha, hora).estado == EstadoReserva::EnCurso,
{
}

/// Esa misma pasada deja ocupada a la cabana de una reserva en curso: basta
/// una reserva no cancelada de la fecha con el reloj dentro de su intervalo.
pub proof fn lema_barrido_ocupa_cabana(
    c: Cabana,
    reservas: Seq<Reserva>,
    fecha: i32,
    hora: u32,
    i: int,
)
    requires
        0 <= i < reservas.len(),
        reservas[i].cabana_id == c.id,
        reservas[i].fecha_reserva == fecha,
        reservas[i].estado != EstadoReserva::Cancelada,
        reservas[i].hora_inicio <= hora,
        hora < reservas[i].hora_fin,
    ensures
        cabana_barrida(c, reservas, fecha, hora).estado == EstadoCabana::Ocupada,
{
    assert(tiene_reserva_hoy(reservas, c.id, fecha));
    assert(cabana_ocupada_ahora(reservas, c.id, fecha, hora));
}

/// Volver a barrer la misma fecha con el reloj ya pasado el fin de una
/// reserva no cancelada la completa, cualquiera haya sido la hora de la
/// pasada anterior.
pub proof fn lema_barrido_completa(r: Reserva, fecha: i32, hora1: u32, hora2: u32)
    requires
        r.fecha_reserva == fecha,
        r.estado != EstadoReserva::Cancelada,
        hora2 >= r.hora_fin,
    ensures
        estado_barrido(estado_barrido(r, fecha, hora1), fecha, hora2).estado
            == EstadoReserva::Completada,
{
}

/// El barrido es idempotente: una segunda pasada con el mismo reloj no
/// cambia ninguna fila, de modo que repetirla es seguro y no publica un
/// segundo evento.
pub proof fn lema_barrido_idempotente(a: Almacen, b: Almacen, c: Almacen, fecha: i32, hora: u32)
    requires
        es_barrido(a, b, fecha, hora),
        es_barrido(b, c, fecha, hora),
    ensures
        c.reservas@ == b.reservas@,
        c.cabanas@ == b.cabanas@,
{
    assert forall|i: int|
        0 <= i < b.reservas@.len() implies c.reservas@[i] == b.reservas@[i] by {
        assert(b.reservas@[i] == estado_barrido(a.reservas@[i], fecha, hora));
        assert(c.reservas@[i] == estado_barrido(b.reservas@[i], fecha, hora));
    };
    assert(c.reservas@ =~= b.reservas@);
    lema_barrido_estable(a.reservas@, b.reservas@, fecha, hora);
    assert forall|i: int|
        0 <= i < b.cabanas@.len() implies c.cabanas@[i] == b.cabanas@[i] by {
        let cb = a.cabanas@[i];
        assert(b.cabanas@[i] == cabana_barrida(cb, a.reservas@, fecha, hora));
        assert(c.cabanas@[i] == cabana_barrida(b.cabanas@[i], b.reservas@, fecha, hora));
        assert(tiene_reserva_hoy(b.reservas@, cb.id, fecha) == tiene_reserva_hoy(
            a.reservas@,
            cb.id,
            fecha,
        ));
        assert(cabana_ocupada_ahora(b.reservas@, cb.id, fecha, hora) == cabana_ocupada_ahora(
            a.reservas@,
            cb.id,
            fecha,
            hora,
        ));
    };
    assert(c.cabanas@ =~= b.cabanas@);
}

impl Almacen {
    /// Una pasada del barrido con el reloj inyectado en (fecha, hora):
    /// recorre las reservas de esa fecha no canceladas y les escribe el
    /// estado que dicta el reloj, y despues deja la disponibilidad de cada
    /// cabana con reservas ese dia segun tenga o no una reserva en curso;
    /// una escritura identica a lo ya guardado se omite. Devuelve si algun
    /// dato cambio, para publicar un unico evento agregado tras la pasada
    /// y ninguno cuando no hubo cambios.
    pub fn actualizar_estados_automaticos(&mut self, fecha_actual: i32, hora_actual: u32) -> (cambio:
        bool)
        requires
            old(self).bien_formado(),
        ensures
            final(self).bien_formado(),
            es_barrido(*old(self), *final(self), fecha_actual, hora_actual),
            cambio == (final(self).reservas@ != old(self).reservas@ || final(self).cabanas@ != old(
                self,
            ).cabanas@),
    {
        let mut cambio = false;
        let mut i: usize = 0;
        while i < self.reservas.len()
            invariant
                i <= self.reservas@.len(),
                self.reservas@.len() == old(self).reservas@.len(),
                self.cabanas@ == old(self).cabanas@,
                self.clientes@ == old(self).clientes@,
                self.proximo_cliente_id == old(self).proximo_cliente_id,
                self.proximo_cabana_id == old(self).proximo_cabana_id,
                self.proximo_reserva_id == old(self).proximo_reserva_id,
                forall|j: int|
                    0 <= j < i ==> self.reservas@[j] == estado_barrido(
                        old(self).reservas@[j],
                        fecha_actual,
                        hora_actual,
                    ),
                forall|j: int|
                    i <= j < self.reservas@.len() ==> self.reservas@[j] == old(self).reservas@[j],
                cambio == exists|j: int|
                    0 <= j < i && self.reservas@[j] != old(self).reservas@[j],
            decreases self.reservas@.len() - i,
        {
            let fecha_r = self.reservas[i].fecha_reserva;
            let inicio = self.reservas[i].hora_inicio;
            let fin = self.reservas[i].hora_fin;
            let est = self.reservas[i].estado;
            if fecha_r == fecha_actual && !matches!(est, EstadoReserva::Cancelada) {
                let nuevo = if inicio <= hora_actual && hora_actual < fin {
                    EstadoReserva::EnCurso
                } else if hora_actual >= fin {
                    EstadoReserva::Completada
                } else {
                    EstadoReserva::Pendiente
                };
                if est != nuevo {
                    let ghost reservas_ant = self.reservas@;
                    let mut fila = self.reservas.remove(i);
                    fila.estado = nuevo;
                    self.reservas.insert(i, fila);
                    cambio = true;
                    proof {
                        crate::almacen::lema_remover_insertar(
                            reservas_ant,
                            i as int,
                            self.reservas@[i as int],
                        );
                        assert(self.reservas@ =~= reservas_ant.update(
                            i as int,
                            self.reservas@[i as int],
                        ));
                        assert(self.reservas@[i as int] != old(self).reservas@[i as int]);
                    }
                }
            }
            i = i + 1;
        }
        let ghost reservas_fase1 = self.reservas@;
        let ghost cambio_fase1 = cambio;
        proof {
            if !cambio {
                assert forall|j: int|
                    0 <= j < self.reservas@.len() implies self.reservas@[j] == old(
                    self,
                ).reservas@[j] by {}
                assert(self.reservas@ =~= old(self).reservas@);
            }
            assert(cambio == (self.reservas@ != old(self).reservas@));
        }
        let mut k: usize = 0;
        while k < self.cabanas.len()
            invariant
                k <= self.cabanas@.len(),
                self.reservas@ == reservas_fase1,
                self.reservas@.len() == old(self).reservas@.len(),
                self.cabanas@.len() == old(self).cabanas@.len(),
                self.clientes@ == old(self).clientes@,
                self.proximo_cliente_id == old(self).proximo_cliente_id,
                self.proximo_cabana_id == old(self).proximo_cabana_id,
                self.proximo_reserva_id == old(self).proximo_reserva_id,
                cambio_fase1 == (self.reservas@ != old(self).reservas@),
                forall|j: int|
                    0 <= j < self.reservas@.len() ==> self.reservas@[j] == estado_barrido(
                        old(self).reservas@[j],
                        fecha_actual,
                        hora_actual,
                    ),
                forall|j: int|
                    0 <= j < k ==> self.cabanas@[j] == cabana_barrida(
                        old(self).cabanas@[j],
                        old(self).reservas@,
                        fecha_actual,
                        hora_actual,
                    ),
                forall|j: int|
                    k <= j < self.cabanas@.len() ==> self.cabanas@[j] == old(self).cabanas@[j],
                cambio == (cambio_fase1 || exists|j: int|
                    0 <= j < k && self.cabanas@[j] != old(self).cabanas@[j]),
            decreases self.cabanas@.len() - k,
        {
            let idc = self.cabanas[k].id;
            let est = self.cabanas[k].estado;
            proof {
                lema_barrido_estable(
                    old(self).reservas@,
                    self.reservas@,
                    fecha_actual,
                    hora_actual,
                );
            }
            if tiene_reserva_hoy_exec(&self.reservas, idc, fecha_actual) {
                let ocupada = cabana_ocupada_exec(&self.reservas, idc, fecha_actual, hora_actual);
                let nuevo = if ocupada {
                    EstadoCabana::Ocupada
                } else {
                    EstadoCabana::Disponible
                };
                if est != nuevo {
                    let ghost cabanas_ant = self.cabanas@;
                    let mut c = self.cabanas.remove(k);
                    c.estado = nuevo;
                    self.cabanas.insert(k, c);
                    cambio = true;
                    proof {
                        crate::almacen::lema_remover_insertar(
                            cabanas_ant,
                            k as int,
                            self.cabanas@[k as int],
                        );
                        assert(self.cabanas@ =~= cabanas_ant.update(
                            k as int,
                            self.cabanas@[k as int],
                        ));
                        assert(self.cabanas@[k as int] != old(self).cabanas@[k as int]);
                    }
                }
            }
            k = k + 1;
        }
        proof {
            if !cambio {
                assert forall|j: int|
                    0 <= j < self.cabanas@.len() implies self.cabanas@[j] == old(
                    self,
                ).cabanas@[j] by {}
                assert(self.cabanas@ =~= old(self).cabanas@);
            }
            if cambio && !cambio_fase1 {
                assert(self.cabanas@ != old(self).cabanas@);
            }
            let ant = *old(self);
            let act = *self;
            assert forall|i: int, j: int|
                0 <= i < act.reservas@.len() && 0 <= j < act.reservas@.len() && i != j
                    implies !en_conflicto(act.reservas@[i], act.reservas@[j]) by {
                assert(!en_conflicto(ant.reservas@[i], ant.reservas@[j]));
            };
            assert forall|i: int, j: int|
                0 <= i < j < act.reservas@.len() implies act.reservas@[i].id
                    != act.reservas@[j].id by {
                assert(ant.reservas@[i].id != ant.reservas@[j].id);
            };
            assert forall|i: int, j: int|
                0 <= i < j < act.cabanas@.len() implies act.cabanas@[i].id
                    != act.cabanas@[j].id by {
                assert(ant.cabanas@[i].id != ant.cabanas@[j].id);
            };
            assert forall|i: int|
                0 <= i < act.reservas@.len() implies act.reservas@[i].id < act.proximo_reserva_id
                    && hay_cabana(act.cabanas@, act.reservas@[i].cabana_id) && hay_cliente(
                act.clientes@,
                act.reservas@[i].cliente_id,
            ) by {
                assert(act.reservas@[i].id == ant.reservas@[i].id);
                assert(act.reservas@[i].cabana_id == ant.reservas@[i].cabana_id);
                assert(hay_cabana(ant.cabanas@, ant.reservas@[i].cabana_id));
                let w = choose|w: int|
                    0 <= w < ant.cabanas@.len() && ant.cabanas@[w].id
                        == ant.reservas@[i].cabana_id;
                assert(act.cabanas@[w].id == ant.cabanas@[w].id);
            };
            assert forall|i: int|
                0 <= i < act.cabanas@.len() implies act.cabanas@[i].id
                    < act.proximo_cabana_id by {
                assert(act.cabanas@[i].id == ant.cabanas@[i].id);
            };
        }
        cambio
    }

    /// La misma pasada de barrido, pero leyendo el reloj local del
    /// sistema, como la corre la tarea periodica del proceso. Todo lo
    /// demas vale para el instante que el reloj haya dado.
    pub fn actualizar_estados_ahora(&mut self) -> (cambio: bool)
        requires
            old(self).bien_formado(),
        ensures
            final(self).bien_formado(),
            exists|fecha: i32, hora: u32|
                #[trigger] es_barrido(*old(self), *final(self), fecha, hora) && hora < 86400,
            cambio == (final(self).reservas@ != old(self).reservas@ || final(self).cabanas@ != old(
                self,
            ).cabanas@),
    {
        let (fecha, hora) = crate::reloj::ahora_local();
        let cambio = self.actualizar_estados_automaticos(fecha, hora);
        proof {
            assert(es_barrido(*old(self), *self, fecha, hora) && hora < 86400);
        }
        cambio
    }
}

} // verus!
