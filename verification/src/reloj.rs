//! Fuente de hora: el unico punto donde el nucleo lee el reloj del
//! sistema. El barrido recibe la fecha y la hora como valores planos, de
//! modo que toda su logica queda verificada para cualquier instante; aqui
//! solo se convierte el instante real a esos valores.

use vstd::prelude::*;

verus! {

/// Se apoya en chrono::Local::now, NaiveDate::num_days_from_ce y
/// NaiveTime::num_seconds_from_midnight: devuelve la fecha local como
/// numero de dia desde la era comun y la hora local como segundos desde la
/// medianoche; chrono garantiza que esos segundos quedan por debajo de
/// 86400. Del instante devuelto no se promete nada mas: depende del reloj.
#[verifier::external_body]
pub(crate) fn ahora_local() -> (fecha_hora: (i32, u32))
    ensures
        fecha_hora.1 < 86400,
{
    let ahora = chrono::Local::now();
    let fecha = chrono::Datelike::num_days_from_ce(&ahora.date_naive());
    let hora = chrono::Timelike::num_seconds_from_midnight(&ahora.time());
    (fecha, hora)
}

} // verus!
