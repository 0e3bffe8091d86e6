//! Motor de reservas: crear, eliminar, cambiar de estado y listar. Cada
//! operacion valida sus reglas de negocio antes de mutar fila alguna, muta
//! la reserva y la disponibilidad de su cabana juntas, y conserva el
//! invariante del almacen.

use vstd::prelude::*;

use vstd::multiset::Multiset;

use crate::almacen::{
    Almacen, buscar_cabana, buscar_reserva, existe_cliente, hay_cabana, hay_cliente, hay_reserva,
    indice_cabana, indice_reserva, lema_remover_insertar,
};
use crate::modelos::{
    Cabana, ErrorServicio, EstadoCabana, EstadoReserva, NewReserva, Reserva, en_conflicto,
    transicion_valida,
};
use crate::validaciones::{choca, existe_conflicto, hay_conflicto};

verus! {

broadcast use vstd::seq_lib::group_to_multiset_ensures, vstd::multiset::group_multiset_axioms;

/// Orden de listado: fecha ascendente y, a igual fecha, hora de inicio
/// ascendente. Este orden es el que el barrido de estados da por sentado.
pub open spec fn antes(r1: Reserva, r2: Reserva) -> bool {
    ||| r1.fecha_reserva < r2.fecha_reserva
    ||| (r1.fecha_reserva == r2.fecha_reserva && r1.hora_inicio <= r2.hora_inicio)
}

/// La secuencia esta ordenada por (fecha, hora de inicio) ascendente.
pub open spec fn ordenada(s: Seq<Reserva>) -> bool {
    forall|i: int, j: int| 0 <= i < j < s.len() ==> antes(s[i], s[j])
}

/// Comparacion ejecutable del orden de listado.
fn es_antes(a: &Reserva, b: &Reserva) -> (r: bool)
    ensures
        r == antes(*a, *b),
{
    a.fecha_reserva < b.fecha_reserva || (a.fecha_reserva == b.fecha_reserva && a.hora_inicio
        <= b.hora_inicio)
}

impl Almacen {
    /// Crea una reserva dentro de una sola operacion: primero corre la
    /// validacion de solape y aborta con `Conflicto` sin escribir nada;
    /// luego verifica las claves foraneas; recien entonces inserta la fila
    /// con identificador fresco y estado el que pida quien crea
    /// (`Pendiente` en el flujo normal), y marca la cabana como ocupada.
    /// Devuelve la reserva creada con su identidad asignada.
    pub fn crear_reserva(&mut self, nueva: NewReserva) -> (r: Result<Reserva, ErrorServicio>)
        requires
            old(self).bien_formado(),
            old(self).proximo_reserva_id < i32::MAX,
        ensures
            final(self).bien_formado(),
            final(self).clientes@ == old(self).clientes@,
            final(self).proximo_cliente_id == old(self).proximo_cliente_id,
            final(self).proximo_cabana_id == old(self).proximo_cabana_id,
            match r {
                Ok(res) => {
                    let k = indice_cabana(old(self).cabanas@, nueva.cabana_id);
                    &&& !hay_conflicto(
                        old(self).reservas@,
                        nueva.cabana_id,
                        nueva.fecha_reserva,
                        nueva.hora_inicio,
                        nueva.hora_fin,
                    )
                    &&& hay_cabana(old(self).cabanas@, nueva.cabana_id)
                    &&& hay_cliente(old(self).clientes@, nueva.cliente_id)
                    &&& res == (Reserva {
                        id: old(self).proximo_reserva_id,
                        cliente_id: nueva.cliente_id,
                        cabana_id: nueva.cabana_id,
                        fecha_reserva: nueva.fecha_reserva,
                        hora_inicio: nueva.hora_inicio,
                        hora_fin: nueva.hora_fin,
                        estado: nueva.estado,
                        observaciones: nueva.observaciones,
                        fecha_creacion: None,
                    })
                    &&& final(self).reservas@ == old(self).reservas@.push(res)
                    &&& final(self).cabanas@ == old(self).cabanas@.update(
                        k,
                        (Cabana { estado: EstadoCabana::Ocupada, ..old(self).cabanas@[k] }),
                    )
                    &&& final(self).proximo_reserva_id == old(self).proximo_reserva_id + 1
                },
                Err(ErrorServicio::Conflicto) => {
                    &&& hay_conflicto(
                        old(self).reservas@,
                        nueva.cabana_id,
                        nueva.fecha_reserva,
                        nueva.hora_inicio,
                        nueva.hora_fin,
                    )
                    &&& *final(self) == *old(self)
                },
                Err(ErrorServicio::Referencial) => {
                    &&& !hay_conflicto(
                        old(self).reservas@,
                        nueva.cabana_id,
                        nueva.fecha_reserva,
                        nueva.hora_inicio,
                        nueva.hora_fin,
                    )
                    &&& !(hay_cabana(old(self).cabanas@, nueva.cabana_id) && hay_cliente(
                        old(self).clientes@,
                        nueva.cliente_id,
                    ))
                    &&& *final(self) == *old(self)
                },
                Err(_) => false,
            },
    {
        let hay = existe_conflicto(
            &self.reservas,
            nueva.cabana_id,
            nueva.fecha_reserva,
            nueva.hora_inicio,
            nueva.hora_fin,
        );
        if hay {
            return Err(ErrorServicio::Conflicto);
        }
        let puesto_cabana = buscar_cabana(&self.cabanas, nueva.cabana_id);
        let k = match puesto_cabana {
            Some(k) => k,
            None => {
                return Err(ErrorServicio::Referencial);
            },
        };
        if !existe_cliente(&self.clientes, nueva.cliente_id) {
            return Err(ErrorServicio::Referencial);
        }
        let res = Reserva {
            id: self.proximo_reserva_id,
            cliente_id: nueva.cliente_id,
            cabana_id: nueva.cabana_id,
            fecha_reserva: nueva.fecha_reserva,
            hora_inicio: nueva.hora_inicio,
            hora_fin: nueva.hora_fin,
            estado: nueva.estado,
            observaciones: nueva.observaciones,
            fecha_creacion: None,
        };
        let copia = res.clonar();
        self.reservas.push(res);
        self.proximo_reserva_id = self.proximo_reserva_id + 1;
        let mut c = self.cabanas.remove(k);
        c.estado = EstadoCabana::Ocupada;
        self.cabanas.insert(k, c);
        proof {
            let ant = *old(self);
            let n = ant.reservas@.len() as int;
            lema_remover_insertar(ant.cabanas@, k as int, self.cabanas@[k as int]);
            let ki = indice_cabana(ant.cabanas@, nueva.cabana_id);
            assert(0 <= ki < ant.cabanas@.len() && ant.cabanas@[ki].id == nueva.cabana_id);
            assert(ki == k as int);
            assert forall|idn: i32|
                hay_cabana(ant.cabanas@, idn) implies hay_cabana(self.cabanas@, idn) by {
                let w = choose|w: int| 0 <= w < ant.cabanas@.len() && ant.cabanas@[w].id == idn;
                assert(self.cabanas@[w].id == idn);
            };
            assert forall|i: int, j: int|
                0 <= i < self.reservas@.len() && 0 <= j < self.reservas@.len() && i != j
                    implies !en_conflicto(self.reservas@[i], self.reservas@[j]) by {
                if i < n && j < n {
                    assert(!en_conflicto(ant.reservas@[i], ant.reservas@[j]));
                } else if i < n {
                    assert(!choca(
                        ant.reservas@[i],
                        nueva.cabana_id,
                        nueva.fecha_reserva,
                        nueva.hora_inicio,
                        nueva.hora_fin,
                    ));
                } else {
                    assert(!choca(
                        ant.reservas@[j],
                        nueva.cabana_id,
                        nueva.fecha_reserva,
                        nueva.hora_inicio,
                        nueva.hora_fin,
                    ));
                }
            };
        }
        Ok(copia)
    }

    /// Elimina fisicamente una reserva y, de manera incondicional, vuelve a
    /// poner su cabana como disponible: una reserva quitada siempre libera
    /// el recurso, aun cuando queden otras reservas futuras no solapadas
    /// (politica conservadora documentada; el proximo barrido vuelve a
    /// derivar el estado preciso). Devuelve cuantas filas se eliminaron.
    pub fn eliminar_reserva(&mut self, id: i32) -> (r: Result<usize, ErrorServicio>)
        requires
            old(self).bien_formado(),
        ensures
            final(self).bien_formado(),
            final(self).clientes@ == old(self).clientes@,
            final(self).proximo_cliente_id == old(self).proximo_cliente_id,
            final(self).proximo_cabana_id == old(self).proximo_cabana_id,
            final(self).proximo_reserva_id == old(self).proximo_reserva_id,
            match r {
                Ok(n) => {
                    let k = indice_reserva(old(self).reservas@, id);
                    let kc = indice_cabana(old(self).cabanas@, old(self).reservas@[k].cabana_id);
                    &&& n == 1
                    &&& hay_reserva(old(self).reservas@, id)
                    &&& final(self).reservas@ == old(self).reservas@.remove(k)
                    &&& final(self).cabanas@ == old(self).cabanas@.update(
                        kc,
                        (Cabana {
                            estado: EstadoCabana::Disponible,
                            ..old(self).cabanas@[kc]
                        }),
                    )
                },
                Err(e) => {
                    &&& e == ErrorServicio::NoEncontrado
                    &&& !hay_reserva(old(self).reservas@, id)
                    &&& *final(self) == *old(self)
                },
            },
    {
        let k = match buscar_reserva(&self.reservas, id) {
            Some(k) => k,
            None => {
                return Err(ErrorServicio::NoEncontrado);
            },
        };
        let quitada = self.reservas.remove(k);
        proof {
            let ant = *old(self);
            let ki = indice_reserva(ant.reservas@, id);
            assert(0 <= ki < ant.reservas@.len() && ant.reservas@[ki].id == id);
            assert(ki == k as int);
            assert(hay_cabana(ant.cabanas@, quitada.cabana_id));
        }
        let kc = match buscar_cabana(&self.cabanas, quitada.cabana_id) {
            Some(kc) => kc,
            None => {
                proof {
                    assert(false);
                }
                return Err(ErrorServicio::NoEncontrado);
            },
        };
        let mut c = self.cabanas.remove(kc);
        c.estado = EstadoCabana::Disponible;
        self.cabanas.insert(kc, c);
        proof {
            let ant = *old(self);
            let n = ant.reservas@.len() as int;
            let k = k as int;
            lema_remover_insertar(ant.cabanas@, kc as int, self.cabanas@[kc as int]);
            let kci = indice_cabana(ant.cabanas@, quitada.cabana_id);
            assert(0 <= kci < ant.cabanas@.len() && ant.cabanas@[kci].id == quitada.cabana_id);
            assert(kci == kc as int);
            assert forall|idn: i32|
                hay_cabana(ant.cabanas@, idn) implies hay_cabana(self.cabanas@, idn) by {
                let w = choose|w: int| 0 <= w < ant.cabanas@.len() && ant.cabanas@[w].id == idn;
                assert(self.cabanas@[w].id == idn);
            };
            let act = self.reservas@;
            assert forall|i: int, j: int|
                0 <= i < act.len() && 0 <= j < act.len() && i != j implies !en_conflicto(
                act[i],
                act[j],
            ) by {
                let i0 = if i < k { i } else { i + 1 };
                let j0 = if j < k { j } else { j + 1 };
                assert(act[i] == ant.reservas@[i0]);
                assert(act[j] == ant.reservas@[j0]);
                assert(!en_conflicto(ant.reservas@[i0], ant.reservas@[j0]));
            };
            assert forall|i: int, j: int| 0 <= i < j < act.len() implies act[i].id != act[j].id by {
                let i0 = if i < k { i } else { i + 1 };
                let j0 = if j < k { j } else { j + 1 };
                assert(act[i] == ant.reservas@[i0]);
                assert(act[j] == ant.reservas@[j0]);
            };
            assert forall|i: int|
                0 <= i < act.len() implies act[i].id < self.proximo_reserva_id && hay_cabana(
                self.cabanas@,
                act[i].cabana_id,
            ) && hay_cliente(self.clientes@, act[i].cliente_id) by {
                let i0 = if i < k { i } else { i + 1 };
                assert(act[i] == ant.reservas@[i0]);
                assert(hay_cabana(ant.cabanas@, act[i].cabana_id));
            };
        }
        Ok(1)
    }

    /// Cambia el estado de una reserva, validando la transicion contra el
    /// ciclo de vida; un cambio nulo o hacia atras se rechaza salvo hacia
    /// `Cancelada` desde un estado no terminal. Si el estado nuevo es
    /// `Completada` o `Cancelada`, la cabana vuelve a quedar disponible de
    /// manera incondicional, aun con otras reservas futuras vigentes
    /// (la misma politica conservadora que al eliminar). Devuelve la fila
    /// actualizada.
    pub fn actualizar_estado_reserva(
        &mut self,
        reserva_id: i32,
        nuevo_estado: EstadoReserva,
    ) -> (r: Result<Reserva, ErrorServicio>)
        requires
            old(self).bien_formado(),
        ensures
            final(self).bien_formado(),
            final(self).clientes@ == old(self).clientes@,
            final(self).proximo_cliente_id == old(self).proximo_cliente_id,
            final(self).proximo_cabana_id == old(self).proximo_cabana_id,
            final(self).proximo_reserva_id == old(self).proximo_reserva_id,
            match r {
                Ok(res) => {
                    let k = indice_reserva(old(self).reservas@, reserva_id);
                    let kc = indice_cabana(old(self).cabanas@, old(self).reservas@[k].cabana_id);
                    &&& hay_reserva(old(self).reservas@, reserva_id)
                    &&& transicion_valida(old(self).reservas@[k].estado, nuevo_estado)
                    &&& res == (Reserva { estado: nuevo_estado, ..old(self).reservas@[k] })
                    &&& final(self).reservas@ == old(self).reservas@.update(k, res)
                    &&& if nuevo_estado == EstadoReserva::Completada || nuevo_estado
                        == EstadoReserva::Cancelada {
                        final(self).cabanas@ == old(self).cabanas@.update(
                            kc,
                            (Cabana {
                                estado: EstadoCabana::Disponible,
                                ..old(self).cabanas@[kc]
                            }),
                        )
                    } else {
                        final(self).cabanas@ == old(self).cabanas@
                    }
                },
                Err(ErrorServicio::NoEncontrado) => {
                    &&& !hay_reserva(old(self).reservas@, reserva_id)
                    &&& *final(self) == *old(self)
                },
                Err(ErrorServicio::TransicionInvalida) => {
                    let k = indice_reserva(old(self).reservas@, reserva_id);
                    &&& hay_reserva(old(self).reservas@, reserva_id)
                    &&& !transicion_valida(old(self).reservas@[k].estado, nuevo_estado)
                    &&& *final(self) == *old(self)
                },
                Err(_) => false,
            },
    {
        let k = match buscar_reserva(&self.reservas, reserva_id) {
            Some(k) => k,
            None => {
                return Err(ErrorServicio::NoEncontrado);
            },
        };
        proof {
            let ki = indice_reserva(self.reservas@, reserva_id);
            assert(0 <= ki < self.reservas@.len() && self.reservas@[ki].id == reserva_id);
            assert(ki == k as int);
        }
        let de = self.reservas[k].estado;
        let valida = match (de, nuevo_estado) {
            (EstadoReserva::Pendiente, EstadoReserva::EnCurso) => true,
            (EstadoReserva::EnCurso, EstadoReserva::Completada) => true,
            (EstadoReserva::Pendiente, EstadoReserva::Cancelada) => true,
            (EstadoReserva::EnCurso, EstadoReserva::Cancelada) => true,
            _ => false,
        };
        if !valida {
            return Err(ErrorServicio::TransicionInvalida);
        }
        let mut fila = self.reservas.remove(k);
        fila.estado = nuevo_estado;
        let copia = fila.clonar();
        self.reservas.insert(k, fila);
        proof {
            let ant = *old(self);
            lema_remover_insertar(ant.reservas@, k as int, self.reservas@[k as int]);
            let act = self.reservas@;
            assert forall|i: int, j: int|
                0 <= i < act.len() && 0 <= j < act.len() && i != j implies !en_conflicto(
                act[i],
                act[j],
            ) by {
                assert(!en_conflicto(ant.reservas@[i], ant.reservas@[j]));
            };
            assert forall|i: int|
                0 <= i < act.len() implies hay_cabana(self.cabanas@, act[i].cabana_id)
                    && hay_cliente(self.clientes@, act[i].cliente_id) by {
                assert(hay_cabana(ant.cabanas@, ant.reservas@[i].cabana_id));
                assert(hay_cliente(ant.clientes@, ant.reservas@[i].cliente_id));
            };
        }
        let libera = match nuevo_estado {
            EstadoReserva::Completada => true,
            EstadoReserva::Cancelada => true,
            _ => false,
        };
        if libera {
            proof {
                assert(hay_cabana(self.cabanas@, copia.cabana_id));
            }
            let kc = match buscar_cabana(&self.cabanas, copia.cabana_id) {
                Some(kc) => kc,
                None => {
                    proof {
                        assert(false);
                    }
                    return Err(ErrorServicio::NoEncontrado);
                },
            };
            let mut c = self.cabanas.remove(kc);
            c.estado = EstadoCabana::Disponible;
            self.cabanas.insert(kc, c);
            proof {
                let ant = *old(self);
                lema_remover_insertar(ant.cabanas@, kc as int, self.cabanas@[kc as int]);
                let kci = indice_cabana(ant.cabanas@, copia.cabana_id);
                assert(0 <= kci < ant.cabanas@.len() && ant.cabanas@[kci].id == copia.cabana_id);
                assert(kci == kc as int);
                assert forall|idn: i32|
                    hay_cabana(ant.cabanas@, idn) implies hay_cabana(self.cabanas@, idn) by {
                    let w = choose|w: int| 0 <= w < ant.cabanas@.len() && ant.cabanas@[w].id
                        == idn;
                    assert(self.cabanas@[w].id == idn);
                };
            }
        }
        Ok(copia)
    }

    /// Lista todas las reservas ordenadas por fecha ascendente y, a igual
    /// fecha, por hora de inicio ascendente: las mismas filas del almacen,
    /// con su multiplicidad, en el orden del que depende la agrupacion del
    /// barrido.
    pub fn listar_reservas(&self) -> (r: Vec<Reserva>)
        ensures
            ordenada(r@),
            r@.to_multiset() == self.reservas@.to_multiset(),
    {
        let mut resto: Vec<Reserva> = Vec::new();
        let mut i: usize = 0;
        while i < self.reservas.len()
            invariant
                i <= self.reservas@.len(),
                resto@ == self.reservas@.take(i as int),
            decreases self.reservas@.len() - i,
        {
            resto.push(self.reservas[i].clonar());
            i = i + 1;
        }
        proof {
            assert(self.reservas@.take(self.reservas@.len() as int) =~= self.reservas@);
        }
        let mut resultado: Vec<Reserva> = Vec::new();
        while resto.len() > 0
            invariant
                ordenada(resultado@),
                forall|i: int, j: int|
                    0 <= i < resultado@.len() && 0 <= j < resto@.len() ==> antes(
                        resultado@[i],
                        resto@[j],
                    ),
                resultado@.to_multiset().add(resto@.to_multiset())
                    == self.reservas@.to_multiset(),
            decreases resto@.len(),
        {
            let mut m: usize = 0;
            let mut i: usize = 1;
            while i < resto.len()
                invariant
                    0 < resto@.len(),
                    m < i,
                    i <= resto@.len(),
                    forall|j: int| 0 <= j < i ==> antes(resto@[m as int], resto@[j]),
                decreases resto@.len() - i,
            {
                if es_antes(&resto[i], &resto[m]) {
                    m = i;
                }
                i = i + 1;
            }
            let ghost resto_ant = resto@;
            let ghost resultado_ant = resultado@;
            let fila = resto.remove(m);
            resultado.push(fila);
            proof {
                assert(resto_ant.contains(resto_ant[m as int]));
                assert(resto_ant.to_multiset().count(resto_ant[m as int]) > 0);
                assert(resultado@.to_multiset() =~= resultado_ant.to_multiset().insert(
                    resto_ant[m as int],
                ));
                assert(resto@.to_multiset() =~= resto_ant.to_multiset().remove(
                    resto_ant[m as int],
                ));
                assert(resultado@.to_multiset().add(resto@.to_multiset())
                    =~= resultado_ant.to_multiset().add(resto_ant.to_multiset()));
                assert forall|i: int, j: int|
                    0 <= i < resultado@.len() && 0 <= j < resto@.len() implies antes(
                    resultado@[i],
                    resto@[j],
                ) by {
                    let j0 = if j < m { j } else { j + 1 };
                    assert(resto@[j] == resto_ant[j0]);
                    if i < resultado_ant.len() {
                        assert(antes(resultado_ant[i], resto_ant[j0]));
                    } else {
                        assert(antes(resto_ant[m as int], resto_ant[j0]));
                    }
                };
            }
        }
        proof {
            assert(resto@.to_multiset() =~= Multiset::empty());
            assert(resultado@.to_multiset().add(Multiset::empty())
                =~= resultado@.to_multiset());
        }
        resultado
    }
}

} // verus!
