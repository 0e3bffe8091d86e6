//! Almacen en memoria del nucleo: las filas de clientes, cabanas y
//! reservas, con el invariante que toda operacion establece y conserva.
//! Cada tabla asigna identificadores crecientes a partir de un contador.

use vstd::prelude::*;

use crate::modelos::{
    Cabana, Cliente, ErrorServicio, EstadoCabana, NewCabana, NewCliente, Reserva, en_conflicto,
};

verus! {

/// Hay una cabana con el identificador dado.
pub open spec fn hay_cabana(cabanas: Seq<Cabana>, id: i32) -> bool {
    exists|k: int| 0 <= k < cabanas.len() && cabanas[k].id == id
}

/// Hay un cliente con el identificador dado.
pub open spec fn hay_cliente(clientes: Seq<Cliente>, id: i32) -> bool {
    exists|k: int| 0 <= k < clientes.len() && clientes[k].id == id
}

/// Hay una reserva con el identificador dado.
pub open spec fn hay_reserva(reservas: Seq<Reserva>, id: i32) -> bool {
    exists|k: int| 0 <= k < reservas.len() && reservas[k].id == id
}

/// Indice de la reserva con el identificador dado; con identificadores
/// unicos, cuando `hay_reserva` vale es el unico indice posible.
pub open spec fn indice_reserva(reservas: Seq<Reserva>, id: i32) -> int {
    choose|k: int| 0 <= k < reservas.len() && reservas[k].id == id
}

/// Indice de la cabana con el identificador dado; con identificadores
/// unicos, cuando `hay_cabana` vale es el unico indice posible.
pub open spec fn indice_cabana(cabanas: Seq<Cabana>, id: i32) -> int {
    choose|k: int| 0 <= k < cabanas.len() && cabanas[k].id == id
}

/// Quitar un elemento y volver a insertar otro en el mismo lugar deja la
/// secuencia igual a la de partida con ese lugar reemplazado.
pub(crate) proof fn lema_remover_insertar<A>(s: Seq<A>, i: int, v: A)
    requires
        0 <= i < s.len(),
    ensures
        s.remove(i).insert(i, v) == s.update(i, v),
{
    assert(s.remove(i).insert(i, v) =~= s.update(i, v));
}

/// Busca el indice de la cabana con el identificador dado.
pub(crate) fn buscar_cabana(cabanas: &Vec<Cabana>, id: i32) -> (r: Option<usize>)
    ensures
        match r {
            Some(k) => k < cabanas@.len() && cabanas@[k as int].id == id,
            None => !hay_cabana(cabanas@, id),
        },
{
    let mut i: usize = 0;
    while i < cabanas.len()
        invariant
            i <= cabanas@.len(),
            forall|j: int| 0 <= j < i ==> cabanas@[j].id != id,
        decreases cabanas@.len() - i,
    {
        if cabanas[i].id == id {
            return Some(i);
        }
        i = i + 1;
    }
    None
}

/// Busca el indice de la reserva con el identificador dado.
pub(crate) fn buscar_reserva(reservas: &Vec<Reserva>, id: i32) -> (r: Option<usize>)
    ensures
        match r {
            Some(k) => k < reservas@.len() && reservas@[k as int].id == id,
            None => !hay_reserva(reservas@, id),
        },
{
    let mut i: usize = 0;
    while i < reservas.len()
        invariant
            i <= reservas@.len(),
            forall|j: int| 0 <= j < i ==> reservas@[j].id != id,
        decreases reservas@.len() - i,
    {
        if reservas[i].id == id {
            return Some(i);
        }
        i = i + 1;
    }
    None
}

/// Dice si existe un cliente con el identificador dado.
pub(crate) fn existe_cliente(clientes: &Vec<Cliente>, id: i32) -> (b: bool)
    ensures
        b == hay_cliente(clientes@, id),
{
    let mut i: usize = 0;
    while i < clientes.len()
        invariant
            i <= clientes@.len(),
            forall|j: int| 0 <= j < i ==> clientes@[j].id != id,
        decreases clientes@.len() - i,
    {
        if clientes[i].id == id {
            return true;
        }
        i = i + 1;
    }
    false
}

/// Estado completo del nucleo: las filas de las tres tablas y los contadores de
/// identificadores. Es la unica fuente de verdad sobre la que trabajan el
/// motor de reservas y el barrido de estados.
pub struct Almacen {
    pub clientes: Vec<Cliente>,
    pub cabanas: Vec<Cabana>,
    pub reservas: Vec<Reserva>,
    pub proximo_cliente_id: i32,
    pub proximo_cabana_id: i32,
    pub proximo_reserva_id: i32,
}

impl Almacen {
    /// Invariante del almacen, que toda operacion publica conserva:
    /// identificadores unicos y por debajo de su contador, claves foraneas
    /// integras, y ningun par de reservas no canceladas de la misma cabana
    /// y fecha con intervalos solapados.
    pub open spec fn bien_formado(self) -> bool {
        &&& forall|i: int, j: int|
            0 <= i < j < self.clientes@.len() ==> self.clientes@[i].id != self.clientes@[j].id
        &&& forall|i: int|
            0 <= i < self.clientes@.len() ==> self.clientes@[i].id < self.proximo_cliente_id
        &&& forall|i: int, j: int|
            0 <= i < j < self.cabanas@.len() ==> self.cabanas@[i].id != self.cabanas@[j].id
        &&& forall|i: int|
            0 <= i < self.cabanas@.len() ==> self.cabanas@[i].id < self.proximo_cabana_id
        &&& forall|i: int, j: int|
            0 <= i < j < self.reservas@.len() ==> self.reservas@[i].id != self.reservas@[j].id
        &&& forall|i: int|
            0 <= i < self.reservas@.len() ==> self.reservas@[i].id < self.proximo_reserva_id
        &&& forall|i: int|
            0 <= i < self.reservas@.len() ==> hay_cabana(
                self.cabanas@,
                self.reservas@[i].cabana_id,
            )
        &&& forall|i: int|
            0 <= i < self.reservas@.len() ==> hay_cliente(
                self.clientes@,
                self.reservas@[i].cliente_id,
            )
        &&& forall|i: int, j: int|
            0 <= i < self.reservas@.len() && 0 <= j < self.reservas@.len() && i != j
                ==> !en_conflicto(self.reservas@[i], self.reservas@[j])
    }

    /// Devuelve todas las filas de clientes, en orden de alta.
    pub fn listar_clientes(&self) -> (r: Vec<Cliente>)
        ensures
            r@ == self.clientes@,
    {
        let mut r: Vec<Cliente> = Vec::new();
        let mut i: usize = 0;
        while i < self.clientes.len()
            invariant
                i <= self.clientes@.len(),
                r@ == self.clientes@.take(i as int),
            decreases self.clientes@.len() - i,
        {
            r.push(self.clientes[i].clonar());
            i = i + 1;
        }
        proof {
            assert(self.clientes@.take(self.clientes@.len() as int) =~= self.clientes@);
        }
        r
    }

    /// Devuelve todas las filas de cabanas, en orden de alta.
    pub fn listar_cabanas(&self) -> (r: Vec<Cabana>)
        ensures
            r@ == self.cabanas@,
    {
        let mut r: Vec<Cabana> = Vec::new();
        let mut i: usize = 0;
        while i < self.cabanas.len()
            invariant
                i <= self.cabanas@.len(),
                r@ == self.cabanas@.take(i as int),
            decreases self.cabanas@.len() - i,
        {
            r.push(self.cabanas[i].clonar());
            i = i + 1;
        }
        proof {
            assert(self.cabanas@.take(self.cabanas@.len() as int) =~= self.cabanas@);
        }
        r
    }

    /// Da de alta un cliente con un identificador fresco y lo devuelve.
    pub fn crear_cliente(&mut self, nuevo: NewCliente) -> (c: Cliente)
        requires
            old(self).bien_formado(),
            old(self).proximo_cliente_id < i32::MAX,
        ensures
            final(self).bien_formado(),
            c.id == old(self).proximo_cliente_id,
            c.nombre == nuevo.nombre,
            c.telefono == nuevo.telefono,
            c.email == nuevo.email,
            c.dni == nuevo.dni,
            c.fecha_registro == None::<i64>,
            final(self).clientes@ == old(self).clientes@.push(c),
            final(self).cabanas@ == old(self).cabanas@,
            final(self).reservas@ == old(self).reservas@,
            final(self).proximo_cliente_id == old(self).proximo_cliente_id + 1,
            final(self).proximo_cabana_id == old(self).proximo_cabana_id,
            final(self).proximo_reserva_id == old(self).proximo_reserva_id,
    {
        let c = Cliente {
            id: self.proximo_cliente_id,
            nombre: nuevo.nombre,
            telefono: nuevo.telefono,
            email: nuevo.email,
            dni: nuevo.dni,
            fecha_registro: None,
        };
        let copia = c.clonar();
        self.clientes.push(c);
        self.proximo_cliente_id = self.proximo_cliente_id + 1;
        proof {
            let ant = old(self).clientes@;
            let act = self.clientes@;
            assert forall|i: int|
                0 <= i < self.reservas@.len() implies hay_cliente(
                act,
                self.reservas@[i].cliente_id,
            ) by {
                assert(hay_cliente(ant, self.reservas@[i].cliente_id));
                let k = choose|k: int| 0 <= k < ant.len() && ant[k].id == self.reservas@[i].cliente_id;
                assert(act[k].id == self.reservas@[i].cliente_id);
            };
        }
        copia
    }

    /// Da de alta una cabana con un identificador fresco y la devuelve.
    pub fn crear_cabana(&mut self, nueva: NewCabana) -> (c: Cabana)
        requires
            old(self).bien_formado(),
            old(self).proximo_cabana_id < i32::MAX,
        ensures
            final(self).bien_formado(),
            c.id == old(self).proximo_cabana_id,
            c.nombre == nueva.nombre,
            c.capacidad == nueva.capacidad,
            c.ubicacion == nueva.ubicacion,
            c.estado == nueva.estado,
            c.descripcion == nueva.descripcion,
            c.precio_hora == nueva.precio_hora,
            final(self).cabanas@ == old(self).cabanas@.push(c),
            final(self).clientes@ == old(self).clientes@,
            final(self).reservas@ == old(self).reservas@,
            final(self).proximo_cabana_id == old(self).proximo_cabana_id + 1,
            final(self).proximo_cliente_id == old(self).proximo_cliente_id,
            final(self).proximo_reserva_id == old(self).proximo_reserva_id,
    {
        let c = Cabana {
            id: self.proximo_cabana_id,
            nombre: nueva.nombre,
            capacidad: nueva.capacidad,
            ubicacion: nueva.ubicacion,
            estado: nueva.estado,
            descripcion: nueva.descripcion,
            precio_hora: nueva.precio_hora,
        };
        let copia = c.clonar();
        self.cabanas.push(c);
        self.proximo_cabana_id = self.proximo_cabana_id + 1;
        proof {
            let ant = old(self).cabanas@;
            let act = self.cabanas@;
            assert forall|i: int|
                0 <= i < self.reservas@.len() implies hay_cabana(
                act,
                self.reservas@[i].cabana_id,
            ) by {
                assert(hay_cabana(ant, self.reservas@[i].cabana_id));
                let k = choose|k: int| 0 <= k < ant.len() && ant[k].id == self.reservas@[i].cabana_id;
                assert(act[k].id == self.reservas@[i].cabana_id);
            };
        }
        copia
    }

    /// Cambia a mano el estado de disponibilidad de una cabana y devuelve
    /// la fila actualizada; rechaza un identificador desconocido. Las demas
    /// filas no se tocan.
    pub fn actualizar_estado(&mut self, cabana_id: i32, nuevo_estado: EstadoCabana) -> (r: Result<
        Cabana,
        ErrorServicio,
    >)
        requires
            old(self).bien_formado(),
        ensures
            final(self).bien_formado(),
            final(self).clientes@ == old(self).clientes@,
            final(self).reservas@ == old(self).reservas@,
            final(self).proximo_cliente_id == old(self).proximo_cliente_id,
            final(self).proximo_cabana_id == old(self).proximo_cabana_id,
            final(self).proximo_reserva_id == old(self).proximo_reserva_id,
            match r {
                Ok(c) => {
                    let k = indice_cabana(old(self).cabanas@, cabana_id);
                    &&& hay_cabana(old(self).cabanas@, cabana_id)
                    &&& c == (Cabana { estado: nuevo_estado, ..old(self).cabanas@[k] })
                    &&& final(self).cabanas@ == old(self).cabanas@.update(k, c)
                },
                Err(e) => {
                    &&& e == ErrorServicio::NoEncontrado
                    &&& !hay_cabana(old(self).cabanas@, cabana_id)
                    &&& final(self).cabanas@ == old(self).cabanas@
                },
            },
    {
        match buscar_cabana(&self.cabanas, cabana_id) {
            Some(i) => {
                let mut c = self.cabanas.remove(i);
                c.estado = nuevo_estado;
                let copia = c.clonar();
                self.cabanas.insert(i, c);
                proof {
                    let ant = old(self).cabanas@;
                    lema_remover_insertar(ant, i as int, self.cabanas@[i as int]);
                    let k = indice_cabana(ant, cabana_id);
                    assert(ant[i as int].id == cabana_id);
                    assert(0 <= k < ant.len() && ant[k].id == cabana_id);
                    assert(k == i as int);
                    assert forall|idn: i32|
                        hay_cabana(ant, idn) implies hay_cabana(self.cabanas@, idn) by {
                        let w = choose|w: int| 0 <= w < ant.len() && ant[w].id == idn;
                        assert(self.cabanas@[w].id == idn);
                    };
                }
                Ok(copia)
            },
            None => Err(ErrorServicio::NoEncontrado),
        }
    }

    /// Almacen vacio, bien formado, con los contadores en 1.
    pub fn nuevo() -> (alm: Almacen)
        ensures
            alm.bien_formado(),
            alm.clientes@.len() == 0,
            alm.cabanas@.len() == 0,
            alm.reservas@.len() == 0,
            alm.proximo_cliente_id == 1,
            alm.proximo_cabana_id == 1,
            alm.proximo_reserva_id == 1,
    {
        Almacen {
            clientes: Vec::new(),
            cabanas: Vec::new(),
            reservas: Vec::new(),
            proximo_cliente_id: 1,
            proximo_cabana_id: 1,
            proximo_reserva_id: 1,
        }
    }
}

} // verus!
