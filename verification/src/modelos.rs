//! Tipos de datos del dominio: clientes, cabanas y reservas, junto con
//! los estados de su ciclo de vida y la taxonomia de errores del servicio.

use vstd::prelude::*;

verus! {

/// Estado del ciclo de vida de una reserva.
///
/// Transiciones permitidas: `Pendiente -> EnCurso -> Completada`, y
/// `Cancelada` alcanzable desde `Pendiente` o `EnCurso` (nunca desde
/// `Completada`). `Completada` y `Cancelada` son terminales.
#[derive(Clone, Copy, Debug, PartialEq, Eq, Structural)]
pub enum EstadoReserva {
    Pendiente,
    EnCurso,
    Completada,
    Cancelada,
}

/// Estado de disponibilidad de una cabana: una proyeccion derivada de sus
/// reservas, nunca una fuente de verdad independiente.
#[derive(Clone, Copy, Debug, PartialEq, Eq, Structural)]
pub enum EstadoCabana {
    Disponible,
    Ocupada,
    Mantenimiento,
}

/// Taxonomia de errores del servicio. Los cuatro primeros son rechazos de
/// reglas de negocio, detectados antes de mutar fila alguna;
/// `Infraestructura` queda para fallas del almacenamiento, que la fachada
/// debe distinguir de los rechazos de negocio.
#[derive(Clone, Copy, Debug, PartialEq, Eq, Structural)]
pub enum ErrorServicio {
    /// Ya existe una reserva solapada para esa cabana y rango horario.
    Conflicto,
    /// El identificador pedido no corresponde a ninguna fila.
    NoEncontrado,
    /// El cambio de estado pedido no respeta el ciclo de vida.
    TransicionInvalida,
    /// Una clave foranea (cabana o cliente) no existe.
    Referencial,
    /// Falla de conexion o de almacenamiento, ajena a las reglas de negocio.
    Infraestructura,
}

/// Estado inicial de una reserva cuando quien la crea no indica otro.
pub open spec fn estado_por_defecto() -> EstadoReserva {
    EstadoReserva::Pendiente
}

/// Valida un cambio de estado contra el ciclo de vida: hacia adelante de a
/// un paso, o hacia `Cancelada` desde un estado no terminal; rechaza los
/// cambios nulos y los retrocesos.
pub open spec fn transicion_valida(de: EstadoReserva, a: EstadoReserva) -> bool {
    ||| (de == EstadoReserva::Pendiente && a == EstadoReserva::EnCurso)
    ||| (de == EstadoReserva::EnCurso && a == EstadoReserva::Completada)
    ||| ((de == EstadoReserva::Pendiente || de == EstadoReserva::EnCurso)
        && a == EstadoReserva::Cancelada)
}

/// Nombre persistido de cada estado de reserva.
pub open spec fn nombre_estado_reserva(e: EstadoReserva) -> Seq<char> {
    match e {
        EstadoReserva::Pendiente => "pendiente"@,
        EstadoReserva::EnCurso => "en curso"@,
        EstadoReserva::Completada => "completada"@,
        EstadoReserva::Cancelada => "cancelada"@,
    }
}

/// Nombre persistido de cada estado de cabana.
pub open spec fn nombre_estado_cabana(e: EstadoCabana) -> Seq<char> {
    match e {
        EstadoCabana::Disponible => "disponible"@,
        EstadoCabana::Ocupada => "ocupada"@,
        EstadoCabana::Mantenimiento => "mantenimiento"@,
    }
}

/// Texto con el que la fachada informa cada error del servicio: preciso
/// para los rechazos de negocio, generico para las fallas internas.
pub open spec fn texto_error(e: ErrorServicio) -> Seq<char> {
    match e {
        ErrorServicio::Conflicto => "Conflicto de horario: ya existe una reserva en ese rango."@,
        ErrorServicio::NoEncontrado => "No se encontro la fila pedida."@,
        ErrorServicio::TransicionInvalida => "Cambio de estado no permitido por el ciclo de vida."@,
        ErrorServicio::Referencial => "La cabana o el cliente indicados no existen."@,
        ErrorServicio::Infraestructura => "Error interno del almacenamiento."@,
    }
}

impl EstadoReserva {
    /// Nombre con el que este estado se persiste y se publica.
    pub fn nombre(&self) -> (r: String)
        ensures
            r@ == nombre_estado_reserva(*self),
    {
        match self {
            EstadoReserva::Pendiente => "pendiente".to_owned(),
            EstadoReserva::EnCurso => "en curso".to_owned(),
            EstadoReserva::Completada => "completada".to_owned(),
            EstadoReserva::Cancelada => "cancelada".to_owned(),
        }
    }
}

impl Default for EstadoReserva {
    /// Estado con el que nace una reserva cuando no se indica otro.
    fn default() -> (e: EstadoReserva)
        ensures
            e == estado_por_defecto(),
    {
        EstadoReserva::Pendiente
    }
}

impl EstadoCabana {
    /// Nombre con el que este estado se persiste y se publica.
    pub fn nombre(&self) -> (r: String)
        ensures
            r@ == nombre_estado_cabana(*self),
    {
        match self {
            EstadoCabana::Disponible => "disponible".to_owned(),
            EstadoCabana::Ocupada => "ocupada".to_owned(),
            EstadoCabana::Mantenimiento => "mantenimiento".to_owned(),
        }
    }
}

impl ErrorServicio {
    /// Razon legible del error, para la fachada.
    pub fn mensaje(&self) -> (r: String)
        ensures
            r@ == texto_error(*self),
    {
        match self {
            ErrorServicio::Conflicto => "Conflicto de horario: ya existe una reserva en ese rango.".to_owned(),
            ErrorServicio::NoEncontrado => "No se encontro la fila pedida.".to_owned(),
            ErrorServicio::TransicionInvalida => "Cambio de estado no permitido por el ciclo de vida.".to_owned(),
            ErrorServicio::Referencial => "La cabana o el cliente indicados no existen.".to_owned(),
            ErrorServicio::Infraestructura => "Error interno del almacenamiento.".to_owned(),
        }
    }
}

/// Cliente del registro; solo se referencia por clave foranea desde las
/// reservas. El instante de registro se guarda como segundos de epoca.
#[derive(Debug)]
pub struct Cliente {
    pub id: i32,
    pub nombre: String,
    pub telefono: Option<String>,
    pub email: Option<String>,
    pub dni: Option<String>,
    pub fecha_registro: Option<i64>,
}

/// Datos para dar de alta un cliente; el identificador lo asigna el almacen.
#[derive(Debug)]
pub struct NewCliente {
    pub nombre: String,
    pub telefono: Option<String>,
    pub email: Option<String>,
    pub dni: Option<String>,
}

/// Cabana reservable. `precio_hora` se guarda en centavos.
#[derive(Debug)]
pub struct Cabana {
    pub id: i32,
    pub nombre: String,
    pub capacidad: i32,
    pub ubicacion: Option<String>,
    pub estado: EstadoCabana,
    pub descripcion: Option<String>,
    pub precio_hora: Option<u64>,
}

/// Datos para dar de alta una cabana; el identificador lo asigna el almacen.
#[derive(Debug)]
pub struct NewCabana {
    pub nombre: String,
    pub capacidad: i32,
    pub ubicacion: Option<String>,
    pub estado: EstadoCabana,
    pub descripcion: Option<String>,
    pub precio_hora: Option<u64>,
}

/// Reserva de una cabana por un cliente, para el intervalo semiabierto
/// `[hora_inicio, hora_fin)` del dia `fecha_reserva`. La fecha es un numero
/// de dia y las horas son segundos desde la medianoche.
#[derive(Debug)]
pub struct Reserva {
    pub id: i32,
    pub cliente_id: i32,
    pub cabana_id: i32,
    pub fecha_reserva: i32,
    pub hora_inicio: u32,
    pub hora_fin: u32,
    pub estado: EstadoReserva,
    pub observaciones: Option<String>,
    pub fecha_creacion: Option<i64>,
}

/// Datos para crear una reserva; el identificador lo asigna el almacen y el
/// estado inicial es `Pendiente` salvo que quien la crea indique otro
/// (flujo administrativo o de importacion).
#[derive(Debug)]
pub struct NewReserva {
    pub cliente_id: i32,
    pub cabana_id: i32,
    pub fecha_reserva: i32,
    pub hora_inicio: u32,
    pub hora_fin: u32,
    pub estado: EstadoReserva,
    pub observaciones: Option<String>,
}

/// Copia exacta de un texto opcional, para devolver filas sin cederlas.
fn clonar_texto_opcional(t: &Option<String>) -> (r: Option<String>)
    ensures
        r == t,
{
    match t {
        Some(s) => Some(s.clone()),
        None => None,
    }
}

impl Cliente {
    /// Copia exacta de la fila, campo por campo.
    pub fn clonar(&self) -> (c: Cliente)
        ensures
            c == *self,
    {
        Cliente {
            id: self.id,
            nombre: self.nombre.clone(),
            telefono: clonar_texto_opcional(&self.telefono),
            email: clonar_texto_opcional(&self.email),
            dni: clonar_texto_opcional(&self.dni),
            fecha_registro: self.fecha_registro,
        }
    }
}

impl Cabana {
    /// Copia exacta de la fila, campo por campo.
    pub fn clonar(&self) -> (c: Cabana)
        ensures
            c == *self,
    {
        Cabana {
            id: self.id,
            nombre: self.nombre.clone(),
            capacidad: self.capacidad,
            ubicacion: clonar_texto_opcional(&self.ubicacion),
            estado: self.estado,
            descripcion: clonar_texto_opcional(&self.descripcion),
            precio_hora: self.precio_hora,
        }
    }
}

impl Reserva {
    /// Copia exacta de la fila, campo por campo.
    pub fn clonar(&self) -> (r: Reserva)
        ensures
            r == *self,
    {
        Reserva {
            id: self.id,
            cliente_id: self.cliente_id,
            cabana_id: self.cabana_id,
            fecha_reserva: self.fecha_reserva,
            hora_inicio: self.hora_inicio,
            hora_fin: self.hora_fin,
            estado: self.estado,
            observaciones: clonar_texto_opcional(&self.observaciones),
            fecha_creacion: self.fecha_creacion,
        }
    }
}

/// Dos intervalos semiabiertos `[inicio, fin)` se solapan cuando cada uno
/// empieza antes de que el otro termine; tocarse en un extremo no es solape.
pub open spec fn solapan(r1: Reserva, r2: Reserva) -> bool {
    r1.hora_inicio < r2.hora_fin && r1.hora_fin > r2.hora_inicio
}

/// Conflicto entre dos reservas persistidas: misma cabana y fecha, ninguna
/// cancelada, e intervalos solapados.
pub open spec fn en_conflicto(r1: Reserva, r2: Reserva) -> bool {
    &&& r1.cabana_id == r2.cabana_id
    &&& r1.fecha_reserva == r2.fecha_reserva
    &&& r1.estado != EstadoReserva::Cancelada
    &&& r2.estado != EstadoReserva::Cancelada
    &&& solapan(r1, r2)
}

} // verus!
