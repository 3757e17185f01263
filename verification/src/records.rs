//! The records that the service stores per user, and the answers that the
//! create, update and save requests give back.

use vstd::prelude::*;

verus! {

/// A driver of the user's fleet.
#[derive(Debug)]
pub struct Driver {
    pub id: i32,
    pub user_id: i64,
    pub name: String,
    pub driving_license: Option<String>,
    pub tractor_license: Option<String>,
    pub snils: Option<String>,
}

/// A vehicle of the user's fleet.
#[derive(Debug)]
pub struct Vehicle {
    pub id: i32,
    pub user_id: i64,
    pub name: String,
    pub license_plate: Option<String>,
    pub sts: Option<String>,
    pub vehicle_type: Option<String>,
    pub category: Option<String>,
}

/// The organisation details printed on every waybill of a user.
#[derive(Debug)]
pub struct CompanySettings {
    pub id: i32,
    pub user_id: i64,
    pub company_name: Option<String>,
    pub company_address: Option<String>,
    pub company_inn: Option<String>,
    pub dispatcher_name: Option<String>,
    pub mechanic_name: Option<String>,
    pub medic_name: Option<String>,
}

/// The values that pre-fill a new waybill form.
#[derive(Debug)]
pub struct DefaultValues {
    pub id: i32,
    pub user_id: i64,
    pub customer: Option<String>,
    pub loading_point: Option<String>,
    pub unloading_point: Option<String>,
    pub cargo: Option<String>,
    pub trips: Option<String>,
    pub distance: Option<String>,
    pub tons: Option<String>,
    pub arrival_time: Option<String>,
    pub field_object: Option<String>,
    pub field_area: Option<String>,
    pub field_norm: Option<String>,
    pub field_fact: Option<String>,
    pub field_motohours: Option<String>,
}

/// A registered user.
#[derive(Debug)]
pub struct User {
    pub id: i64,
    pub yandex_id: String,
    pub email: Option<String>,
    pub name: Option<String>,
    pub avatar: Option<String>,
    pub created_at: i64,
}

/// A login session.
#[derive(Debug)]
pub struct Session {
    pub id: String,
    pub user_id: i64,
    pub created_at: i64,
    pub expires_at: i64,
}

/// A request to add a driver.
#[derive(Debug)]
pub struct CreateDriverReq {
    pub name: String,
    pub driving_license: Option<String>,
    pub tractor_license: Option<String>,
    pub snils: Option<String>,
}

/// A request to change a driver.
#[derive(Debug)]
pub struct UpdateDriverReq {
    pub id: i32,
    pub name: String,
    pub driving_license: Option<String>,
    pub tractor_license: Option<String>,
    pub snils: Option<String>,
}

/// A request to remove a driver or a vehicle.
#[derive(Debug)]
pub struct DeleteReq {
    pub id: i32,
}

/// A request to add a vehicle.
#[derive(Debug)]
pub struct CreateVehicleReq {
    pub name: String,
    pub license_plate: Option<String>,
    pub sts: Option<String>,
    pub vehicle_type: Option<String>,
    pub category: Option<String>,
}

/// A request to change a vehicle.
#[derive(Debug)]
pub struct UpdateVehicleReq {
    pub id: i32,
    pub name: String,
    pub license_plate: Option<String>,
    pub sts: Option<String>,
    pub vehicle_type: Option<String>,
    pub category: Option<String>,
}

/// A request to save the organisation details.
#[derive(Debug)]
pub struct SaveSettingsReq {
    pub company_name: Option<String>,
    pub company_address: Option<String>,
    pub company_inn: Option<String>,
    pub dispatcher_name: Option<String>,
    pub mechanic_name: Option<String>,
    pub medic_name: Option<String>,
}

/// A request to save the form defaults.
#[derive(Debug)]
pub struct SaveDefaultsReq {
    pub customer: Option<String>,
    pub loading_point: Option<String>,
    pub unloading_point: Option<String>,
    pub cargo: Option<String>,
    pub trips: Option<String>,
    pub distance: Option<String>,
    pub tons: Option<String>,
    pub arrival_time: Option<String>,
    pub field_object: Option<String>,
    pub field_area: Option<String>,
    pub field_norm: Option<String>,
    pub field_fact: Option<String>,
    pub field_motohours: Option<String>,
}

/// The id that the answers to a save of settings or defaults carry.
pub const SAVED_ROW_ID: i32 = 1;

/// The driver that an insert created: its row id, truncated to 32 bits as
/// the stored column is read, the owner, and the fields of the request.
pub fn driver_from_insert(row_id: i64, user_id: i64, req: CreateDriverReq) -> (d: Driver)
    ensures
        d.id == row_id as i32,
        d.user_id == user_id,
        d.name == req.name,
        d.driving_license == req.driving_license,
        d.tractor_license == req.tractor_license,
        d.snils == req.snils,
{
    Driver {
        id: row_id as i32,
        user_id,
        name: req.name,
        driving_license: req.driving_license,
        tractor_license: req.tractor_license,
        snils: req.snils,
    }
}

/// The driver as an update left it: the id and fields of the request and the
/// owner.
pub fn driver_from_update(user_id: i64, req: UpdateDriverReq) -> (d: Driver)
    ensures
        d.id == req.id,
        d.user_id == user_id,
        d.name == req.name,
        d.driving_license == req.driving_license,
        d.tractor_license == req.tractor_license,
        d.snils == req.snils,
{
    Driver {
        id: req.id,
        user_id,
        name: req.name,
        driving_license: req.driving_license,
        tractor_license: req.tractor_license,
        snils: req.snils,
    }
}

/// The vehicle that an insert created: its row id truncated to 32 bits, the
/// owner, and the fields of the request.
pub fn vehicle_from_insert(row_id: i64, user_id: i64, req: CreateVehicleReq) -> (v: Vehicle)
    ensures
        v.id == row_id as i32,
        v.user_id == user_id,
        v.name == req.name,
        v.license_plate == req.license_plate,
        v.sts == req.sts,
        v.vehicle_type == req.vehicle_type,
        v.category == req.category,
{
    Vehicle {
        id: row_id as i32,
        user_id,
        name: req.name,
        license_plate: req.license_plate,
        sts: req.sts,
        vehicle_type: req.vehicle_type,
        category: req.category,
    }
}

/// The vehicle as an update left it.
pub fn vehicle_from_update(user_id: i64, req: UpdateVehicleReq) -> (v: Vehicle)
    ensures
        v.id == req.id,
        v.user_id == user_id,
        v.name == req.name,
        v.license_plate == req.license_plate,
        v.sts == req.sts,
        v.vehicle_type == req.vehicle_type,
        v.category == req.category,
{
    Vehicle {
        id: req.id,
        user_id,
        name: req.name,
        license_plate: req.license_plate,
        sts: req.sts,
        vehicle_type: req.vehicle_type,
        category: req.category,
    }
}

/// The settings that a save answers with: the saved fields, the owner, and
/// the fixed id.
pub fn settings_from_save(user_id: i64, req: SaveSettingsReq) -> (s: CompanySettings)
    ensures
        s.id == SAVED_ROW_ID,
        s.user_id == user_id,
        s.company_name == req.company_name,
        s.company_address == req.company_address,
        s.company_inn == req.company_inn,
        s.dispatcher_name == req.dispatcher_name,
        s.mechanic_name == req.mechanic_name,
        s.medic_name == req.medic_name,
{
    CompanySettings {
        id: SAVED_ROW_ID,
        user_id,
        company_name: req.company_name,
        company_address: req.company_address,
        company_inn: req.company_inn,
        dispatcher_name: req.dispatcher_name,
        mechanic_name: req.mechanic_name,
        medic_name: req.medic_name,
    }
}

/// The defaults that a save answers with: the saved fields, the owner, and
/// the fixed id.
pub fn defaults_from_save(user_id: i64, req: SaveDefaultsReq) -> (d: DefaultValues)
    ensures
        d.id == SAVED_ROW_ID,
        d.user_id == user_id,
        d.customer == req.customer,
        d.loading_point == req.loading_point,
        d.unloading_point == req.unloading_point,
        d.cargo == req.cargo,
        d.trips == req.trips,
        d.distance == req.distance,
        d.tons == req.tons,
        d.arrival_time == req.arrival_time,
        d.field_object == req.field_object,
        d.field_area == req.field_area,
        d.field_norm == req.field_norm,
        d.field_fact == req.field_fact,
        d.field_motohours == req.field_motohours,
{
    DefaultValues {
        id: SAVED_ROW_ID,
        user_id,
        customer: req.customer,
        loading_point: req.loading_point,
        unloading_point: req.unloading_point,
        cargo: req.cargo,
        trips: req.trips,
        distance: req.distance,
        tons: req.tons,
        arrival_time: req.arrival_time,
        field_object: req.field_object,
        field_area: req.field_area,
        field_norm: req.field_norm,
        field_fact: req.field_fact,
        field_motohours: req.field_motohours,
    }
}

} // verus!
