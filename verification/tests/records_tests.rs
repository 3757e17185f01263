use road_lists::records::{defaults_from_save, driver_from_insert, driver_from_update, settings_from_save, vehicle_from_insert, vehicle_from_update, CreateDriverReq, CreateVehicleReq, SaveDefaultsReq, SaveSettingsReq, UpdateDriverReq, UpdateVehicleReq, SAVED_ROW_ID};

#[test]
fn inserted_driver_takes_row_id_and_owner() {
    let d = driver_from_insert(
        42,
        7,
        CreateDriverReq {
            name: "Иванов".to_string(),
            driving_license: Some("77 12 345678".to_string()),
            tractor_license: None,
            snils: Some("123-456-789 00".to_string()),
        },
    );
    assert_eq!(d.id, 42);
    assert_eq!(d.user_id, 7);
    assert_eq!(d.name, "Иванов");
    assert_eq!(d.driving_license.as_deref(), Some("77 12 345678"));
    assert_eq!(d.tractor_license, None);
    assert_eq!(d.snils.as_deref(), Some("123-456-789 00"));
}

#[test]
fn inserted_row_id_is_truncated_to_32_bits() {
    let req = || CreateVehicleReq {
        name: "КамАЗ".to_string(),
        license_plate: None,
        sts: None,
        vehicle_type: None,
        category: None,
    };
    assert_eq!(vehicle_from_insert((1i64 << 32) + 5, 1, req()).id, 5);
    assert_eq!(vehicle_from_insert(0xFFFF_FFFF, 1, req()).id, -1);
    let d = driver_from_insert(
        (1i64 << 31) + 1,
        1,
        CreateDriverReq { name: String::new(), driving_license: None, tractor_license: None, snils: None },
    );
    assert_eq!(d.id, i32::MIN + 1);
}

#[test]
fn updated_driver_keeps_request_id() {
    let d = driver_from_update(
        3,
        UpdateDriverReq {
            id: 9,
            name: "Петров".to_string(),
            driving_license: None,
            tractor_license: Some("TR".to_string()),
            snils: None,
        },
    );
    assert_eq!((d.id, d.user_id), (9, 3));
    assert_eq!(d.name, "Петров");
    assert_eq!(d.tractor_license.as_deref(), Some("TR"));
}

#[test]
fn vehicles_carry_request_fields() {
    let v = vehicle_from_update(
        5,
        UpdateVehicleReq {
            id: 11,
            name: "МТЗ-82".to_string(),
            license_plate: Some("1234 АВ 61".to_string()),
            sts: Some("61 00 123456".to_string()),
            vehicle_type: Some("Трактор".to_string()),
            category: Some("B".to_string()),
        },
    );
    assert_eq!((v.id, v.user_id), (11, 5));
    assert_eq!(v.vehicle_type.as_deref(), Some("Трактор"));
    assert_eq!(v.category.as_deref(), Some("B"));
    let w = vehicle_from_insert(
        12,
        5,
        CreateVehicleReq {
            name: "ГАЗ".to_string(),
            license_plate: Some("А123ВС".to_string()),
            sts: None,
            vehicle_type: Some("Грузовой".to_string()),
            category: Some("C".to_string()),
        },
    );
    assert_eq!((w.id, w.user_id), (12, 5));
    assert_eq!(w.license_plate.as_deref(), Some("А123ВС"));
}

#[test]
fn saved_settings_answer_with_id_one() {
    let s = settings_from_save(
        8,
        SaveSettingsReq {
            company_name: Some("ООО Степь".to_string()),
            company_address: None,
            company_inn: Some("6153000000".to_string()),
            dispatcher_name: None,
            mechanic_name: Some("Сидоров".to_string()),
            medic_name: None,
        },
    );
    assert_eq!((s.id, s.user_id), (1, 8));
    assert_eq!(s.company_name.as_deref(), Some("ООО Степь"));
    assert_eq!(s.company_inn.as_deref(), Some("6153000000"));
    assert_eq!(s.mechanic_name.as_deref(), Some("Сидоров"));
    assert_eq!(s.company_address, None);
}

#[test]
fn saved_defaults_answer_with_id_one() {
    let d = defaults_from_save(
        8,
        SaveDefaultsReq {
            customer: Some("Агрохолдинг".to_string()),
            loading_point: None,
            unloading_point: None,
            cargo: Some("Зерно".to_string()),
            trips: None,
            distance: None,
            tons: Some("20".to_string()),
            arrival_time: None,
            field_object: None,
            field_area: Some("12".to_string()),
            field_norm: None,
            field_fact: None,
            field_motohours: Some("8".to_string()),
        },
    );
    assert_eq!((d.id, d.user_id), (SAVED_ROW_ID, 8));
    assert_eq!(d.customer.as_deref(), Some("Агрохолдинг"));
    assert_eq!(d.cargo.as_deref(), Some("Зерно"));
    assert_eq!(d.tons.as_deref(), Some("20"));
    assert_eq!(d.field_area.as_deref(), Some("12"));
    assert_eq!(d.field_motohours.as_deref(), Some("8"));
    assert_eq!(d.loading_point, None);
}
