use reservas::almacen::Almacen;
use reservas::modelos::{
    ErrorServicio, EstadoCabana, EstadoReserva, NewCabana, NewCliente, NewReserva,
};

const H0900: u32 = 9 * 3600;
const H0930: u32 = 9 * 3600 + 30 * 60;
const H1000: u32 = 10 * 3600;
const H1030: u32 = 10 * 3600 + 30 * 60;
const H1100: u32 = 11 * 3600;
const H1200: u32 = 12 * 3600;
const H1300: u32 = 13 * 3600;
const DIA: i32 = 738000;

fn preparar() -> (Almacen, i32, i32) {
    let mut alm = Almacen::nuevo();
    let cli = alm.crear_cliente(NewCliente {
        nombre: "Ana Perez".to_string(),
        telefono: Some("123456".to_string()),
        email: None,
        dni: Some("30111222".to_string()),
    });
    let cab = alm.crear_cabana(NewCabana {
        nombre: "Cabana Rio".to_string(),
        capacidad: 4,
        ubicacion: Some("sector norte".to_string()),
        estado: EstadoCabana::Disponible,
        descripcion: None,
        precio_hora: Some(150000),
    });
    (alm, cli.id, cab.id)
}

fn pedido(cliente_id: i32, cabana_id: i32, dia: i32, inicio: u32, fin: u32) -> NewReserva {
    NewReserva {
        cliente_id,
        cabana_id,
        fecha_reserva: dia,
        hora_inicio: inicio,
        hora_fin: fin,
        estado: EstadoReserva::Pendiente,
        observaciones: None,
    }
}

#[test]
fn crear_reserva_asigna_identidad_y_ocupa() {
    let (mut alm, cli, cab) = preparar();
    let res = alm.crear_reserva(pedido(cli, cab, DIA, H0900, H1000)).unwrap();
    assert_eq!(res.id, 1);
    assert_eq!(res.cliente_id, cli);
    assert_eq!(res.cabana_id, cab);
    assert_eq!(res.estado, EstadoReserva::Pendiente);
    let cabanas = alm.listar_cabanas();
    assert_eq!(cabanas[0].estado, EstadoCabana::Ocupada);
}

#[test]
fn solape_rechazado_y_borde_aceptado() {
    let (mut alm, cli, cab) = preparar();
    alm.crear_reserva(pedido(cli, cab, DIA, H0900, H1000)).unwrap();
    let segundo = alm.crear_reserva(pedido(cli, cab, DIA, H0930, H1030));
    assert_eq!(segundo.unwrap_err(), ErrorServicio::Conflicto);
    let borde = alm.crear_reserva(pedido(cli, cab, DIA, H1000, H1100));
    assert!(borde.is_ok());
}

#[test]
fn solapes_en_cualquier_orden_dejan_uno_solo() {
    for invertido in [false, true] {
        let (mut alm, cli, cab) = preparar();
        let (a, b) = if invertido {
            ((H0930, H1030), (H0900, H1000))
        } else {
            ((H0900, H1000), (H0930, H1030))
        };
        let primero = alm.crear_reserva(pedido(cli, cab, DIA, a.0, a.1));
        let segundo = alm.crear_reserva(pedido(cli, cab, DIA, b.0, b.1));
        assert!(primero.is_ok());
        assert_eq!(segundo.unwrap_err(), ErrorServicio::Conflicto);
        assert_eq!(alm.listar_reservas().len(), 1);
    }
}

#[test]
fn solape_en_otra_fecha_o_cabana_no_molesta() {
    let (mut alm, cli, cab) = preparar();
    let otra = alm.crear_cabana(NewCabana {
        nombre: "Cabana Lago".to_string(),
        capacidad: 2,
        ubicacion: None,
        estado: EstadoCabana::Disponible,
        descripcion: None,
        precio_hora: None,
    });
    alm.crear_reserva(pedido(cli, cab, DIA, H0900, H1000)).unwrap();
    assert!(alm.crear_reserva(pedido(cli, cab, DIA + 1, H0900, H1000)).is_ok());
    assert!(alm.crear_reserva(pedido(cli, otra.id, DIA, H0900, H1000)).is_ok());
}

#[test]
fn reserva_cancelada_no_bloquea() {
    let (mut alm, cli, cab) = preparar();
    let res = alm.crear_reserva(pedido(cli, cab, DIA, H0900, H1000)).unwrap();
    alm.actualizar_estado_reserva(res.id, EstadoReserva::Cancelada).unwrap();
    assert!(alm.crear_reserva(pedido(cli, cab, DIA, H0930, H1030)).is_ok());
}

#[test]
fn crear_con_referencias_desconocidas() {
    let (mut alm, cli, cab) = preparar();
    let sin_cabana = alm.crear_reserva(pedido(cli, cab + 7, DIA, H0900, H1000));
    assert_eq!(sin_cabana.unwrap_err(), ErrorServicio::Referencial);
    let sin_cliente = alm.crear_reserva(pedido(cli + 7, cab, DIA, H0900, H1000));
    assert_eq!(sin_cliente.unwrap_err(), ErrorServicio::Referencial);
    assert_eq!(alm.listar_reservas().len(), 0);
}

#[test]
fn cancelar_libera_aunque_queden_futuras() {
    let (mut alm, cli, cab) = preparar();
    let res = alm.crear_reserva(pedido(cli, cab, DIA, H0900, H1000)).unwrap();
    alm.crear_reserva(pedido(cli, cab, DIA, H1200, H1300)).unwrap();
    assert_eq!(alm.listar_cabanas()[0].estado, EstadoCabana::Ocupada);
    alm.actualizar_estado_reserva(res.id, EstadoReserva::Cancelada).unwrap();
    assert_eq!(alm.listar_cabanas()[0].estado, EstadoCabana::Disponible);
    assert_eq!(alm.listar_reservas().len(), 2);
}

#[test]
fn eliminar_libera_aunque_queden_futuras() {
    let (mut alm, cli, cab) = preparar();
    let res = alm.crear_reserva(pedido(cli, cab, DIA, H0900, H1000)).unwrap();
    alm.crear_reserva(pedido(cli, cab, DIA, H1200, H1300)).unwrap();
    assert_eq!(alm.listar_cabanas()[0].estado, EstadoCabana::Ocupada);
    let borradas = alm.eliminar_reserva(res.id).unwrap();
    assert_eq!(borradas, 1);
    assert_eq!(alm.listar_cabanas()[0].estado, EstadoCabana::Disponible);
    assert_eq!(alm.listar_reservas().len(), 1);
}

#[test]
fn eliminar_desconocida_no_encontrada() {
    let (mut alm, _cli, _cab) = preparar();
    assert_eq!(alm.eliminar_reserva(44).unwrap_err(), ErrorServicio::NoEncontrado);
}

#[test]
fn transiciones_validas_del_ciclo() {
    let (mut alm, cli, cab) = preparar();
    let res = alm.crear_reserva(pedido(cli, cab, DIA, H0900, H1000)).unwrap();
    let en_curso = alm.actualizar_estado_reserva(res.id, EstadoReserva::EnCurso).unwrap();
    assert_eq!(en_curso.estado, EstadoReserva::EnCurso);
    assert_eq!(alm.listar_cabanas()[0].estado, EstadoCabana::Ocupada);
    let completada = alm.actualizar_estado_reserva(res.id, EstadoReserva::Completada).unwrap();
    assert_eq!(completada.estado, EstadoReserva::Completada);
    assert_eq!(alm.listar_cabanas()[0].estado, EstadoCabana::Disponible);
}

#[test]
fn transiciones_invalidas_rechazadas() {
    let (mut alm, cli, cab) = preparar();
    let res = alm.crear_reserva(pedido(cli, cab, DIA, H0900, H1000)).unwrap();
    let nula = alm.actualizar_estado_reserva(res.id, EstadoReserva::Pendiente);
    assert_eq!(nula.unwrap_err(), ErrorServicio::TransicionInvalida);
    let salto = alm.actualizar_estado_reserva(res.id, EstadoReserva::Completada);
    assert_eq!(salto.unwrap_err(), ErrorServicio::TransicionInvalida);
    alm.actualizar_estado_reserva(res.id, EstadoReserva::Cancelada).unwrap();
    let desde_terminal = alm.actualizar_estado_reserva(res.id, EstadoReserva::EnCurso);
    assert_eq!(desde_terminal.unwrap_err(), ErrorServicio::TransicionInvalida);
    let inexistente = alm.actualizar_estado_reserva(99, EstadoReserva::EnCurso);
    assert_eq!(inexistente.unwrap_err(), ErrorServicio::NoEncontrado);
}

#[test]
fn rechazo_no_escribe_nada() {
    let (mut alm, cli, cab) = preparar();
    alm.crear_reserva(pedido(cli, cab, DIA, H0900, H1000)).unwrap();
    alm.actualizar_estado(cab, EstadoCabana::Disponible).unwrap();
    let rechazo = alm.crear_reserva(pedido(cli, cab, DIA, H0930, H1030));
    assert!(rechazo.is_err());
    assert_eq!(alm.listar_reservas().len(), 1);
    assert_eq!(alm.listar_cabanas()[0].estado, EstadoCabana::Disponible);
}

#[test]
fn identificadores_crecientes() {
    let (mut alm, cli, cab) = preparar();
    let r1 = alm.crear_reserva(pedido(cli, cab, DIA, H0900, H1000)).unwrap();
    let r2 = alm.crear_reserva(pedido(cli, cab, DIA + 1, H0900, H1000)).unwrap();
    assert_eq!(r1.id, 1);
    assert_eq!(r2.id, 2);
    let otra = alm.crear_cabana(NewCabana {
        nombre: "Cabana Sur".to_string(),
        capacidad: 6,
        ubicacion: None,
        estado: EstadoCabana::Disponible,
        descripcion: None,
        precio_hora: None,
    });
    assert_eq!(otra.id, cab + 1);
}

#[test]
fn estado_inicial_lo_elige_quien_crea() {
    let (mut alm, cli, cab) = preparar();
    let mut importada = pedido(cli, cab, DIA, H0900, H1000);
    importada.estado = EstadoReserva::Cancelada;
    let res = alm.crear_reserva(importada).unwrap();
    assert_eq!(res.estado, EstadoReserva::Cancelada);
    assert_eq!(alm.listar_cabanas()[0].estado, EstadoCabana::Ocupada);
    let encima = alm.crear_reserva(pedido(cli, cab, DIA, H0930, H1030));
    assert!(encima.is_ok());
}

#[test]
fn actualizar_estado_de_cabana_desconocida() {
    let (mut alm, _cli, cab) = preparar();
    let cambiada = alm.actualizar_estado(cab, EstadoCabana::Mantenimiento).unwrap();
    assert_eq!(cambiada.estado, EstadoCabana::Mantenimiento);
    assert_eq!(alm.listar_cabanas()[0].estado, EstadoCabana::Mantenimiento);
    let ausente = alm.actualizar_estado(cab + 3, EstadoCabana::Ocupada);
    assert_eq!(ausente.unwrap_err(), ErrorServicio::NoEncontrado);
}
