//! Motor de reservas de cabanas: deteccion de conflictos de horario,
//! ciclo de vida de cada reserva, barrido periodico de estados y difusion
//! de cambios a los observadores conectados.
//!
//! Las fechas se representan como numero de dia (dias desde la era comun)
//! y las horas como segundos desde la medianoche, de modo que toda la
//! logica trabaja sobre valores enteros planos.

pub mod almacen;
pub mod barrido;
pub mod difusion;
pub mod modelos;
pub mod reloj;
pub mod reservas;
pub mod validaciones;
