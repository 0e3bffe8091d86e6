//! Concentrador de notificaciones de cambio: los escritores publican un
//! mensaje y todos los observadores suscritos en ese momento lo reciben.
//! La entrega es de mejor esfuerzo (sin persistencia): un mensaje publicado
//! sin suscriptores se pierde, y un suscriptor lento pierde los mensajes
//! mas viejos de su cola acotada sin bloquear a quien publica.

use vstd::prelude::*;

verus! {

/// Declarado para que la mitad emisora del canal pueda vivir en un campo
/// de una estructura verificada; su interior es opaco para la verificacion.
#[verifier::external_type_specification]
#[verifier::external_body]
#[verifier::reject_recursive_types(T)]
pub struct ExSender<T>(tokio::sync::broadcast::Sender<T>);

/// Se apoya en tokio::sync::broadcast::Sender::clone: devuelve otra mitad
/// emisora del mismo canal; como el canal es opaco aqui, no se promete
/// nada del valor devuelto.
pub assume_specification<T>[ <tokio::sync::broadcast::Sender<T> as Clone>::clone ](
    emisor: &tokio::sync::broadcast::Sender<T>,
) -> tokio::sync::broadcast::Sender<T>;

/// Se apoya en tokio::sync::broadcast::channel: crea un canal con cola de
/// `capacidad` mensajes por suscriptor y devuelve la mitad emisora. La
/// funcion externa entra en panico con capacidad 0 o mayor que
/// usize::MAX / 2, de modo que esas entradas quedan excluidas.
#[verifier::external_body]
fn canal_difusion(capacidad: usize) -> tokio::sync::broadcast::Sender<String>
    requires
        0 < capacidad <= usize::MAX / 2,
{
    let (emisor, _receptor) = tokio::sync::broadcast::channel(capacidad);
    emisor
}

/// Se apoya en tokio::sync::broadcast::Sender::send: entrega el mensaje a
/// los suscriptores conectados en ese momento, sin bloquear ni fallar
/// cuando no hay ninguno; el resultado (cuantos lo recibieron) se descarta,
/// como corresponde a una notificacion de mejor esfuerzo.
#[verifier::external_body]
fn enviar_mensaje(emisor: &tokio::sync::broadcast::Sender<String>, mensaje: &str) {
    let _ = emisor.send(mensaje.to_string());
}

/// Concentrador compartido del proceso: se construye una vez al arrancar y
/// se pasa por referencia a cada componente que publica o se suscribe.
#[derive(Clone)]
pub struct Broadcaster {
    pub sender: tokio::sync::broadcast::Sender<String>,
}

impl Broadcaster {
    /// Crea un canal de difusion nuevo, sin suscriptores todavia.
    pub fn new() -> Broadcaster {
        Broadcaster { sender: canal_difusion(100) }
    }

    /// Publica un mensaje para todos los observadores conectados; nunca
    /// bloquea, y no hace nada observable si no hay ninguno.
    pub fn send(&self, msg: &str) {
        enviar_mensaje(&self.sender, msg);
    }
}

} // verus!
