use reservas::almacen::Almacen;
use reservas::modelos::{EstadoCabana, EstadoReserva, NewCabana, NewCliente, NewReserva};

const H0900: u32 = 9 * 3600;
const H0930: u32 = 9 * 3600 + 30 * 60;
const H1000: u32 = 10 * 3600;
const DIA: i32 = 738000;

fn preparar() -> (Almacen, i32, i32) {
    let mut alm = Almacen::nuevo();
    let cli = alm.crear_cliente(NewCliente {
        nombre: "Bruno Sosa".to_string(),
        telefono: None,
        email: Some("bruno@ejemplo.com".to_string()),
        dni: None,
    });
    let cab = alm.crear_cabana(NewCabana {
        nombre: "Cabana Bosque".to_string(),
        capacidad: 5,
        ubicacion: None,
        estado: EstadoCabana::Disponible,
        descripcion: None,
        precio_hora: None,
    });
    (alm, cli.id, cab.id)
}

fn pedido(cliente_id: i32, cabana_id: i32, dia: i32, inicio: u32, fin: u32) -> NewReserva {
    NewReserva {
        cliente_id,
        cabana_id,
        fecha_reserva: dia,
        hora_inicio: inicio,
        hora_fin: fin,
        estado: EstadoReserva::Pendiente,
        observaciones: None,
    }
}

#[test]
fn sin_reservas_hoy_no_escribe_nada() {
    let (mut alm, _cli, _cab) = preparar();
    let cambio = alm.actualizar_estados_automaticos(DIA, H0930);
    assert!(!cambio);
    assert_eq!(alm.listar_cabanas()[0].estado, EstadoCabana::Disponible);
}

#[test]
fn sin_reservas_hoy_respeta_mantenimiento() {
    let (mut alm, cli, cab) = preparar();
    alm.crear_reserva(pedido(cli, cab, DIA + 5, H0900, H1000)).unwrap();
    alm.actualizar_estado(cab, EstadoCabana::Mantenimiento).unwrap();
    let cambio = alm.actualizar_estados_automaticos(DIA, H0930);
    assert!(!cambio);
    assert_eq!(alm.listar_cabanas()[0].estado, EstadoCabana::Mantenimiento);
    assert_eq!(alm.listar_reservas()[0].estado, EstadoReserva::Pendiente);
}

#[test]
fn pendiente_pasa_a_en_curso_y_luego_a_completada() {
    let (mut alm, cli, cab) = preparar();
    let res = alm.crear_reserva(pedido(cli, cab, DIA, H0900, H1000)).unwrap();
    alm.actualizar_estado(cab, EstadoCabana::Disponible).unwrap();

    let cambio = alm.actualizar_estados_automaticos(DIA, H0930);
    assert!(cambio);
    let filas = alm.listar_reservas();
    assert_eq!(filas[0].id, res.id);
    assert_eq!(filas[0].estado, EstadoReserva::EnCurso);
    assert_eq!(alm.listar_cabanas()[0].estado, EstadoCabana::Ocupada);

    let cambio = alm.actualizar_estados_automaticos(DIA, H1000);
    assert!(cambio);
    assert_eq!(alm.listar_reservas()[0].estado, EstadoReserva::Completada);
    assert_eq!(alm.listar_cabanas()[0].estado, EstadoCabana::Disponible);
}

#[test]
fn borde_del_intervalo_no_cuenta_como_en_curso() {
    let (mut alm, cli, cab) = preparar();
    alm.crear_reserva(pedido(cli, cab, DIA, H0900, H1000)).unwrap();
    alm.actualizar_estados_automaticos(DIA, H1000);
    assert_eq!(alm.listar_reservas()[0].estado, EstadoReserva::Completada);
    assert_eq!(alm.listar_cabanas()[0].estado, EstadoCabana::Disponible);
}

#[test]
fn futura_vuelve_a_pendiente_y_libera() {
    let (mut alm, cli, cab) = preparar();
    alm.crear_reserva(pedido(cli, cab, DIA, H0930, H1000)).unwrap();
    assert_eq!(alm.listar_cabanas()[0].estado, EstadoCabana::Ocupada);
    let cambio = alm.actualizar_estados_automaticos(DIA, H0900);
    assert!(cambio);
    assert_eq!(alm.listar_reservas()[0].estado, EstadoReserva::Pendiente);
    assert_eq!(alm.listar_cabanas()[0].estado, EstadoCabana::Disponible);
}

#[test]
fn cancelada_no_se_toca_pero_su_cabana_se_libera() {
    let (mut alm, cli, cab) = preparar();
    let res = alm.crear_reserva(pedido(cli, cab, DIA, H0900, H1000)).unwrap();
    alm.actualizar_estado_reserva(res.id, EstadoReserva::Cancelada).unwrap();
    alm.actualizar_estado(cab, EstadoCabana::Ocupada).unwrap();
    let cambio = alm.actualizar_estados_automaticos(DIA, H0930);
    assert!(cambio);
    assert_eq!(alm.listar_reservas()[0].estado, EstadoReserva::Cancelada);
    assert_eq!(alm.listar_cabanas()[0].estado, EstadoCabana::Disponible);
}

#[test]
fn ocupada_si_alguna_del_grupo_esta_en_curso() {
    let (mut alm, cli, cab) = preparar();
    alm.crear_reserva(pedido(cli, cab, DIA, H0900, H0930)).unwrap();
    alm.crear_reserva(pedido(cli, cab, DIA, H0930, H1000)).unwrap();
    let cambio = alm.actualizar_estados_automaticos(DIA, H0900 + 60);
    assert!(cambio);
    let filas = alm.listar_reservas();
    assert_eq!(filas[0].estado, EstadoReserva::EnCurso);
    assert_eq!(filas[1].estado, EstadoReserva::Pendiente);
    assert_eq!(alm.listar_cabanas()[0].estado, EstadoCabana::Ocupada);
}

#[test]
fn segunda_pasada_identica_no_cambia_nada() {
    let (mut alm, cli, cab) = preparar();
    alm.crear_reserva(pedido(cli, cab, DIA, H0900, H1000)).unwrap();
    let primera = alm.actualizar_estados_automaticos(DIA, H0930);
    assert!(primera);
    let segunda = alm.actualizar_estados_automaticos(DIA, H0930);
    assert!(!segunda);
    assert_eq!(alm.listar_reservas()[0].estado, EstadoReserva::EnCurso);
    assert_eq!(alm.listar_cabanas()[0].estado, EstadoCabana::Ocupada);
}

#[test]
fn otra_fecha_queda_fuera_de_la_pasada() {
    let (mut alm, cli, cab) = preparar();
    alm.crear_reserva(pedido(cli, cab, DIA + 1, H0900, H1000)).unwrap();
    alm.actualizar_estado(cab, EstadoCabana::Disponible).unwrap();
    let cambio = alm.actualizar_estados_automaticos(DIA, H0930);
    assert!(!cambio);
    assert_eq!(alm.listar_reservas()[0].estado, EstadoReserva::Pendiente);
}

#[test]
fn pasada_con_reloj_real_sobre_almacen_vacio() {
    let mut alm = Almacen::nuevo();
    let cambio = alm.actualizar_estados_ahora();
    assert!(!cambio);
    assert_eq!(alm.listar_reservas().len(), 0);
}
