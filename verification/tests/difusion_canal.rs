use reservas::almacen::Almacen;
use reservas::difusion::Broadcaster;
use reservas::modelos::{EstadoCabana, EstadoReserva, NewCabana, NewCliente, NewReserva};

fn pedido_simple(alm: &mut Almacen) -> NewReserva {
    let cli = alm.crear_cliente(NewCliente {
        nombre: "Carla Diaz".to_string(),
        telefono: None,
        email: None,
        dni: None,
    });
    let cab = alm.crear_cabana(NewCabana {
        nombre: "Cabana Centro".to_string(),
        capacidad: 2,
        ubicacion: None,
        estado: EstadoCabana::Disponible,
        descripcion: None,
        precio_hora: None,
    });
    NewReserva {
        cliente_id: cli.id,
        cabana_id: cab.id,
        fecha_reserva: 738000,
        hora_inicio: 9 * 3600,
        hora_fin: 10 * 3600,
        estado: EstadoReserva::Pendiente,
        observaciones: None,
    }
}

#[test]
fn suscripto_antes_de_crear_recibe_el_aviso() {
    let bc = Broadcaster::new();
    let mut rx = bc.sender.subscribe();
    let mut alm = Almacen::nuevo();
    let pedido = pedido_simple(&mut alm);
    let creada = alm.crear_reserva(pedido);
    assert!(creada.is_ok());
    bc.send("actualizar");
    let mensaje = rx.try_recv().unwrap();
    assert_eq!(mensaje, "actualizar");
}

#[test]
fn desconectado_no_bloquea_ni_recibe() {
    let bc = Broadcaster::new();
    let rx = bc.sender.subscribe();
    drop(rx);
    bc.send("actualizar");
    let mut rx2 = bc.sender.subscribe();
    assert!(rx2.try_recv().is_err());
}

#[test]
fn publicar_sin_suscriptores_no_falla() {
    let bc = Broadcaster::new();
    bc.send("actualizar");
    bc.send("actualizar");
}

#[test]
fn varios_suscriptores_reciben_en_orden() {
    let bc = Broadcaster::new();
    let mut rx1 = bc.sender.subscribe();
    let mut rx2 = bc.sender.subscribe();
    bc.send("uno");
    bc.send("dos");
    assert_eq!(rx1.try_recv().unwrap(), "uno");
    assert_eq!(rx1.try_recv().unwrap(), "dos");
    assert_eq!(rx2.try_recv().unwrap(), "uno");
    assert_eq!(rx2.try_recv().unwrap(), "dos");
    assert!(rx1.try_recv().is_err());
}

#[test]
fn clonado_publica_por_el_mismo_canal() {
    let bc = Broadcaster::new();
    let mut rx = bc.sender.subscribe();
    let copia = bc.clone();
    copia.send("actualizar");
    assert_eq!(rx.try_recv().unwrap(), "actualizar");
}
