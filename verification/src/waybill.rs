//! The Typst source of a batch of waybills.

use vstd::prelude::*;
use crate::typst::{escape_typst, is_literal_body_of, lemma_escape_roundtrip, spec_escape_typst};
use crate::records::{CompanySettings, Driver, Vehicle};

verus! {

/// One row of the task table of a waybill, as the user typed it.
#[derive(Debug)]
pub struct TaskRow {
    pub customer: String,
    pub loading_point: String,
    pub unloading_point: String,
    pub cargo: String,
    pub trips: String,
    pub distance: String,
    pub tons: String,
    pub arrival_time: String,
}

/// The Typst dictionary that fills an unused task row.
pub const EMPTY_TASK_ENTRY: &'static str = "(customer: \"\", loading_point: \"\", unloading_point: \"\", cargo: \"\", trips: \"\", distance: \"\", tons: \"\", arrival_time: \"\")";

/// The Typst dictionary for one task row.
pub open spec fn spec_task_entry(t: TaskRow) -> Seq<char> {
    "(customer: \""@ + spec_escape_typst(t.customer@)
        + "\", loading_point: \""@ + spec_escape_typst(t.loading_point@)
        + "\", unloading_point: \""@ + spec_escape_typst(t.unloading_point@)
        + "\", cargo: \""@ + spec_escape_typst(t.cargo@)
        + "\", trips: \""@ + spec_escape_typst(t.trips@)
        + "\", distance: \""@ + spec_escape_typst(t.distance@)
        + "\", tons: \""@ + spec_escape_typst(t.tons@)
        + "\", arrival_time: \""@ + spec_escape_typst(t.arrival_time@)
        + "\")"@
}

/// What fills slot `i` of the task table: the `i`-th row if there is one,
/// else the empty row.
pub open spec fn spec_task_slot(tasks: Seq<TaskRow>, i: int) -> Seq<char> {
    if i < tasks.len() {
        spec_task_entry(tasks[i])
    } else {
        EMPTY_TASK_ENTRY@
    }
}

/// The Typst array of exactly three task dictionaries: the first three rows,
/// padded with empty rows.
pub open spec fn spec_format_tasks(tasks: Seq<TaskRow>) -> Seq<char> {
    "("@ + spec_task_slot(tasks, 0) + ", "@ + spec_task_slot(tasks, 1) + ", "@
        + spec_task_slot(tasks, 2) + ")"@
}

/// A padding row is the task dictionary of a row whose fields are all empty.
pub proof fn lemma_empty_entry_is_empty_row(t: TaskRow)
    requires
        t.customer@.len() == 0,
        t.loading_point@.len() == 0,
        t.unloading_point@.len() == 0,
        t.cargo@.len() == 0,
        t.trips@.len() == 0,
        t.distance@.len() == 0,
        t.tons@.len() == 0,
        t.arrival_time@.len() == 0,
    ensures
        spec_task_entry(t) == EMPTY_TASK_ENTRY@,
{
    let empty = Seq::<char>::empty();
    assert(spec_escape_typst(empty) == empty);
    assert(t.customer@ == empty);
    assert(t.loading_point@ == empty);
    assert(t.unloading_point@ == empty);
    assert(t.cargo@ == empty);
    assert(t.trips@ == empty);
    assert(t.distance@ == empty);
    assert(t.tons@ == empty);
    assert(t.arrival_time@ == empty);
    reveal_strlit("(customer: \"");
    reveal_strlit("\", loading_point: \"");
    reveal_strlit("\", unloading_point: \"");
    reveal_strlit("\", cargo: \"");
    reveal_strlit("\", trips: \"");
    reveal_strlit("\", distance: \"");
    reveal_strlit("\", tons: \"");
    reveal_strlit("\", arrival_time: \"");
    reveal_strlit("\")");
    reveal_strlit("(customer: \"\", loading_point: \"\", unloading_point: \"\", cargo: \"\", trips: \"\", distance: \"\", tons: \"\", arrival_time: \"\")");
    assert(spec_task_entry(t) =~= EMPTY_TASK_ENTRY@);
}

fn append_escaped(out: &mut String, s: &String)
    ensures
        final(out)@ == old(out)@ + spec_escape_typst(s@),
{
    let e = escape_typst(s.as_str());
    out.append(e.as_str());
}

fn append_task_entry(out: &mut String, t: &TaskRow)
    ensures
        final(out)@ == old(out)@ + spec_task_entry(*t),
{
    let ghost start = out@;
    out.append("(customer: \"");
    append_escaped(out, &t.customer);
    out.append("\", loading_point: \"");
    append_escaped(out, &t.loading_point);
    out.append("\", unloading_point: \"");
    append_escaped(out, &t.unloading_point);
    out.append("\", cargo: \"");
    append_escaped(out, &t.cargo);
    out.append("\", trips: \"");
    append_escaped(out, &t.trips);
    out.append("\", distance: \"");
    append_escaped(out, &t.distance);
    out.append("\", tons: \"");
    append_escaped(out, &t.tons);
    out.append("\", arrival_time: \"");
    append_escaped(out, &t.arrival_time);
    out.append("\")");
    assert(out@ =~= start + spec_task_entry(*t));
}

fn append_task_slot(out: &mut String, tasks: &[TaskRow], i: usize)
    ensures
        final(out)@ == old(out)@ + spec_task_slot(tasks@, i as int),
{
    if i < tasks.len() {
        append_task_entry(out, &tasks[i]);
    } else {
        out.append(EMPTY_TASK_ENTRY);
    }
}

/// The task table of a waybill as a Typst array: the first three rows,
/// each field escaped, and empty rows after them up to three.
pub fn format_tasks_typst(tasks: &[TaskRow]) -> (res: String)
    ensures
        res@ == spec_format_tasks(tasks@),
{
    let mut res = String::new();
    res.append("(");
    append_task_slot(&mut res, tasks, 0);
    res.append(", ");
    append_task_slot(&mut res, tasks, 1);
    res.append(", ");
    append_task_slot(&mut res, tasks, 2);
    res.append(")");
    assert(res@ =~= spec_format_tasks(tasks@));
    res
}

/// One waybill of a print request: whom, with what, on which day, for what.
#[derive(Debug)]
pub struct PrintBatchItem {
    pub driver_id: i32,
    pub vehicle_id: i32,
    pub date: Option<String>,
    pub tasks: Vec<TaskRow>,
    pub tractor_mode: Option<String>,
}

/// The vehicle type assumed where none is recorded.
pub const DEFAULT_VEHICLE_TYPE: &'static str = "Грузовой";
/// The vehicle type that is printed on the tractor form.
pub const TRACTOR_VEHICLE_TYPE: &'static str = "Трактор";
/// The template function that prints a tractor's waybill.
pub const TRACTOR_FORM: &'static str = "#waybill_tractor";
/// The template function that prints a truck's waybill.
pub const TRUCK_FORM: &'static str = "#waybill_truck";
/// The mode of a tractor's work assumed where none is given.
pub const DEFAULT_TRACTOR_MODE: &'static str = "cargo";

/// The text of an optional string, empty where there is none.
pub open spec fn or_empty(o: Option<String>) -> Seq<char> {
    match o {
        Some(s) => s@,
        None => Seq::<char>::empty(),
    }
}

/// The text of an optional string, `default` where there is none.
pub open spec fn or_default(o: Option<String>, default: Seq<char>) -> Seq<char> {
    match o {
        Some(s) => s@,
        None => default,
    }
}

/// The template function a vehicle's waybill is printed with: the tractor
/// form for a tractor, the truck form for anything else, a vehicle without a
/// type counting as a truck.
pub open spec fn spec_waybill_form(vehicle_type: Option<String>) -> Seq<char> {
    if or_default(vehicle_type, DEFAULT_VEHICLE_TYPE@) == TRACTOR_VEHICLE_TYPE@ {
        TRACTOR_FORM@
    } else {
        TRUCK_FORM@
    }
}

/// The driver's arguments of a waybill call.
pub open spec fn spec_driver_args(d: Driver) -> Seq<char> {
    "(\n  driver: \""@ + spec_escape_typst(d.name@)
        + "\",\n  driving_license: \""@ + spec_escape_typst(or_empty(d.driving_license))
        + "\",\n  tractor_license: \""@ + spec_escape_typst(or_empty(d.tractor_license))
        + "\",\n  snils: \""@ + spec_escape_typst(or_empty(d.snils))
}

/// The vehicle's arguments of a waybill call.
pub open spec fn spec_vehicle_args(v: Vehicle) -> Seq<char> {
    "\",\n  vehicle: \""@ + spec_escape_typst(v.name@)
        + "\",\n  license_plate: \""@ + spec_escape_typst(or_empty(v.license_plate))
        + "\",\n  sts: \""@ + spec_escape_typst(or_empty(v.sts))
        + "\",\n  category: \""@ + spec_escape_typst(or_empty(v.category))
}

/// The organisation's arguments of a waybill call.
pub open spec fn spec_company_args(s: CompanySettings) -> Seq<char> {
    "\",\n  company_name: \""@ + spec_escape_typst(or_empty(s.company_name))
        + "\",\n  company_address: \""@ + spec_escape_typst(or_empty(s.company_address))
        + "\",\n  company_inn: \""@ + spec_escape_typst(or_empty(s.company_inn))
        + "\",\n  dispatcher_name: \""@ + spec_escape_typst(or_empty(s.dispatcher_name))
        + "\",\n  mechanic_name: \""@ + spec_escape_typst(or_empty(s.mechanic_name))
        + "\",\n  medic_name: \""@ + spec_escape_typst(or_empty(s.medic_name))
}

/// The Typst call that prints one waybill, on its own lines.
pub open spec fn spec_waybill_call(
    driver: Driver,
    vehicle: Vehicle,
    settings: CompanySettings,
    date: Seq<char>,
    item: PrintBatchItem,
) -> Seq<char> {
    "\n"@ + spec_waybill_form(vehicle.vehicle_type) + spec_driver_args(driver)
        + spec_vehicle_args(vehicle)
        + "\",\n  date: \""@ + spec_escape_typst(date)
        + spec_company_args(settings)
        + "\",\n  tasks: "@ + spec_format_tasks(item.tasks@)
        + ",\n  tractor_mode: \""@ + spec_escape_typst(or_default(item.tractor_mode, DEFAULT_TRACTOR_MODE@))
        + "\"\n)\n"@
}

fn append_escaped_or_empty(out: &mut String, s: &Option<String>)
    ensures
        final(out)@ == old(out)@ + spec_escape_typst(or_empty(*s)),
{
    match s {
        Some(v) => append_escaped(out, v),
        None => {
            assert(spec_escape_typst(Seq::<char>::empty()) == Seq::<char>::empty());
            assert(out@ + Seq::<char>::empty() == out@);
        },
    }
}

/// The template function a vehicle's waybill is printed with.
pub fn waybill_form(vehicle_type: &Option<String>) -> (form: &'static str)
    ensures
        form@ == spec_waybill_form(*vehicle_type),
{
    let tractor = String::from_str(TRACTOR_VEHICLE_TYPE);
    let is_tractor = match vehicle_type {
        Some(t) => *t == tractor,
        None => String::from_str(DEFAULT_VEHICLE_TYPE) == tractor,
    };
    if is_tractor {
        TRACTOR_FORM
    } else {
        TRUCK_FORM
    }
}

fn append_driver_args(out: &mut String, d: &Driver)
    ensures
        final(out)@ == old(out)@ + spec_driver_args(*d),
{
    let ghost start = out@;
    out.append("(\n  driver: \"");
    append_escaped(out, &d.name);
    out.append("\",\n  driving_license: \"");
    append_escaped_or_empty(out, &d.driving_license);
    out.append("\",\n  tractor_license: \"");
    append_escaped_or_empty(out, &d.tractor_license);
    out.append("\",\n  snils: \"");
    append_escaped_or_empty(out, &d.snils);
    assert(out@ =~= start + spec_driver_args(*d));
}

fn append_vehicle_args(out: &mut String, v: &Vehicle)
    ensures
        final(out)@ == old(out)@ + spec_vehicle_args(*v),
{
    let ghost start = out@;
    out.append("\",\n  vehicle: \"");
    append_escaped(out, &v.name);
    out.append("\",\n  license_plate: \"");
    append_escaped_or_empty(out, &v.license_plate);
    out.append("\",\n  sts: \"");
    append_escaped_or_empty(out, &v.sts);
    out.append("\",\n  category: \"");
    append_escaped_or_empty(out, &v.category);
    assert(out@ =~= start + spec_vehicle_args(*v));
}

fn append_company_args(out: &mut String, s: &CompanySettings)
    ensures
        final(out)@ == old(out)@ + spec_company_args(*s),
{
    let ghost start = out@;
    out.append("\",\n  company_name: \"");
    append_escaped_or_empty(out, &s.company_name);
    out.append("\",\n  company_address: \"");
    append_escaped_or_empty(out, &s.company_address);
    out.append("\",\n  company_inn: \"");
    append_escaped_or_empty(out, &s.company_inn);
    out.append("\",\n  dispatcher_name: \"");
    append_escaped_or_empty(out, &s.dispatcher_name);
    out.append("\",\n  mechanic_name: \"");
    append_escaped_or_empty(out, &s.mechanic_name);
    out.append("\",\n  medic_name: \"");
    append_escaped_or_empty(out, &s.medic_name);
    assert(out@ =~= start + spec_company_args(*s));
}

/// The Typst call that prints one waybill: the form for the vehicle's type,
/// then every field escaped, absent fields empty, the tractor mode `cargo`
/// where none is given, and the task table.
#[verifier::rlimit(30)]
pub fn render_waybill_call(
    driver: &Driver,
    vehicle: &Vehicle,
    settings: &CompanySettings,
    date: &String,
    item: &PrintBatchItem,
) -> (call: String)
    ensures
        call@ == spec_waybill_call(*driver, *vehicle, *settings, date@, *item),
{
    let mut out = String::new();
    out.append("\n");
    out.append(waybill_form(&vehicle.vehicle_type));
    append_driver_args(&mut out, driver);
    append_vehicle_args(&mut out, vehicle);
    out.append("\",\n  date: \"");
    append_escaped(&mut out, date);
    append_company_args(&mut out, settings);
    out.append("\",\n  tasks: ");
    let tasks = format_tasks_typst(item.tasks.as_slice());
    out.append(tasks.as_str());
    out.append(",\n  tractor_mode: \"");
    match &item.tractor_mode {
        Some(m) => append_escaped(&mut out, m),
        None => {
            let e = escape_typst(DEFAULT_TRACTOR_MODE);
            out.append(e.as_str());
        },
    }
    out.append("\"\n)\n");
    assert(out@ =~= spec_waybill_call(*driver, *vehicle, *settings, date@, *item));
    out
}

/// The date printed on a waybill: the one requested, or else today's.
pub open spec fn spec_waybill_date(requested: Option<String>, today: Option<String>) -> Seq<char> {
    match requested {
        Some(d) => d@,
        None => or_empty(today),
    }
}

/// The date printed on a waybill: the one requested, or else today's, as
/// the caller read it from the clock.
pub fn waybill_date(requested: &Option<String>, today: &Option<String>) -> (date: String)
    requires
        requested is Some || today is Some,
    ensures
        date@ == spec_waybill_date(*requested, *today),
{
    match requested {
        Some(d) => d.clone(),
        None => match today {
            Some(t) => t.clone(),
            None => String::new(),
        },
    }
}

/// A task row's dictionary names the eight fields in order, each between
/// quotes, and what stands between the quotes of each field is a literal
/// body that stays whole and reads back as that same field of the row.
pub proof fn lemma_task_entry_fields(t: TaskRow)
    ensures
        spec_task_entry(t) == "(customer: \""@ + spec_escape_typst(t.customer@)
            + "\", loading_point: \""@ + spec_escape_typst(t.loading_point@)
            + "\", unloading_point: \""@ + spec_escape_typst(t.unloading_point@)
            + "\", cargo: \""@ + spec_escape_typst(t.cargo@)
            + "\", trips: \""@ + spec_escape_typst(t.trips@)
            + "\", distance: \""@ + spec_escape_typst(t.distance@)
            + "\", tons: \""@ + spec_escape_typst(t.tons@)
            + "\", arrival_time: \""@ + spec_escape_typst(t.arrival_time@)
            + "\")"@,
        is_literal_body_of(spec_escape_typst(t.customer@), t.customer@),
        is_literal_body_of(spec_escape_typst(t.loading_point@), t.loading_point@),
        is_literal_body_of(spec_escape_typst(t.unloading_point@), t.unloading_point@),
        is_literal_body_of(spec_escape_typst(t.cargo@), t.cargo@),
        is_literal_body_of(spec_escape_typst(t.trips@), t.trips@),
        is_literal_body_of(spec_escape_typst(t.distance@), t.distance@),
        is_literal_body_of(spec_escape_typst(t.tons@), t.tons@),
        is_literal_body_of(spec_escape_typst(t.arrival_time@), t.arrival_time@),
{
    lemma_escape_roundtrip(t.customer@);
    lemma_escape_roundtrip(t.loading_point@);
    lemma_escape_roundtrip(t.unloading_point@);
    lemma_escape_roundtrip(t.cargo@);
    lemma_escape_roundtrip(t.trips@);
    lemma_escape_roundtrip(t.distance@);
    lemma_escape_roundtrip(t.tons@);
    lemma_escape_roundtrip(t.arrival_time@);
}

/// The task table holds the first three rows in order, and an empty row in
/// each slot past the last row.
pub proof fn lemma_task_table_rows(tasks: Seq<TaskRow>)
    ensures
        spec_format_tasks(tasks) == "("@
            + (if 0 < tasks.len() { spec_task_entry(tasks[0]) } else { EMPTY_TASK_ENTRY@ }) + ", "@
            + (if 1 < tasks.len() { spec_task_entry(tasks[1]) } else { EMPTY_TASK_ENTRY@ }) + ", "@
            + (if 2 < tasks.len() { spec_task_entry(tasks[2]) } else { EMPTY_TASK_ENTRY@ }) + ")"@,
{
}

/// The form is the tractor form exactly for a vehicle whose type is
/// "Трактор"; every other type, and a vehicle without a type, gets the truck
/// form.
pub proof fn lemma_waybill_form_choice(vehicle_type: Option<String>)
    ensures
        (vehicle_type matches Some(t) && t@ == "Трактор"@) ==> spec_waybill_form(vehicle_type) == "#waybill_tractor"@,
        !(vehicle_type matches Some(t) && t@ == "Трактор"@) ==> spec_waybill_form(vehicle_type) == "#waybill_truck"@,
{
    reveal_strlit("Грузовой");
    reveal_strlit("Трактор");
    assert("Грузовой"@ != "Трактор"@) by {
        assert("Грузовой"@[0] != "Трактор"@[0]);
    }
}

/// The driver's part of a waybill call names the driver's name, driving
/// licence, tractor licence and SNILS, in this order, each from its own field
/// (an absent one empty), and each between quotes as a literal body that
/// stays whole and reads back as that field.
pub proof fn lemma_driver_args_fields(d: Driver)
    ensures
        spec_driver_args(d) == "(\n  driver: \""@ + spec_escape_typst(d.name@)
            + "\",\n  driving_license: \""@ + spec_escape_typst(or_empty(d.driving_license))
            + "\",\n  tractor_license: \""@ + spec_escape_typst(or_empty(d.tractor_license))
            + "\",\n  snils: \""@ + spec_escape_typst(or_empty(d.snils)),
        is_literal_body_of(spec_escape_typst(d.name@), d.name@),
        is_literal_body_of(spec_escape_typst(or_empty(d.driving_license)), or_empty(d.driving_license)),
        is_literal_body_of(spec_escape_typst(or_empty(d.tractor_license)), or_empty(d.tractor_license)),
        is_literal_body_of(spec_escape_typst(or_empty(d.snils)), or_empty(d.snils)),
{
    lemma_escape_roundtrip(d.name@);
    lemma_escape_roundtrip(or_empty(d.driving_license));
    lemma_escape_roundtrip(or_empty(d.tractor_license));
    lemma_escape_roundtrip(or_empty(d.snils));
}

/// The vehicle's part of a waybill call names the vehicle's name, plate,
/// registration certificate and category, in this order, each from its own
/// field (an absent one empty), each a literal body that reads back as it.
pub proof fn lemma_vehicle_args_fields(v: Vehicle)
    ensures
        spec_vehicle_args(v) == "\",\n  vehicle: \""@ + spec_escape_typst(v.name@)
            + "\",\n  license_plate: \""@ + spec_escape_typst(or_empty(v.license_plate))
            + "\",\n  sts: \""@ + spec_escape_typst(or_empty(v.sts))
            + "\",\n  category: \""@ + spec_escape_typst(or_empty(v.category)),
        is_literal_body_of(spec_escape_typst(v.name@), v.name@),
        is_literal_body_of(spec_escape_typst(or_empty(v.license_plate)), or_empty(v.license_plate)),
        is_literal_body_of(spec_escape_typst(or_empty(v.sts)), or_empty(v.sts)),
        is_literal_body_of(spec_escape_typst(or_empty(v.category)), or_empty(v.category)),
{
    lemma_escape_roundtrip(v.name@);
    lemma_escape_roundtrip(or_empty(v.license_plate));
    lemma_escape_roundtrip(or_empty(v.sts));
    lemma_escape_roundtrip(or_empty(v.category));
}

/// The organisation's part of a waybill call names its name, address, INN,
/// dispatcher, mechanic and medic, in this order, each from its own field
/// (an absent one empty), each a literal body that reads back as it.
pub proof fn lemma_company_args_fields(s: CompanySettings)
    ensures
        spec_company_args(s) == "\",\n  company_name: \""@ + spec_escape_typst(or_empty(s.company_name))
            + "\",\n  company_address: \""@ + spec_escape_typst(or_empty(s.company_address))
            + "\",\n  company_inn: \""@ + spec_escape_typst(or_empty(s.company_inn))
            + "\",\n  dispatcher_name: \""@ + spec_escape_typst(or_empty(s.dispatcher_name))
            + "\",\n  mechanic_name: \""@ + spec_escape_typst(or_empty(s.mechanic_name))
            + "\",\n  medic_name: \""@ + spec_escape_typst(or_empty(s.medic_name)),
        is_literal_body_of(spec_escape_typst(or_empty(s.company_name)), or_empty(s.company_name)),
        is_literal_body_of(spec_escape_typst(or_empty(s.company_address)), or_empty(s.company_address)),
        is_literal_body_of(spec_escape_typst(or_empty(s.company_inn)), or_empty(s.company_inn)),
        is_literal_body_of(spec_escape_typst(or_empty(s.dispatcher_name)), or_empty(s.dispatcher_name)),
        is_literal_body_of(spec_escape_typst(or_empty(s.mechanic_name)), or_empty(s.mechanic_name)),
        is_literal_body_of(spec_escape_typst(or_empty(s.medic_name)), or_empty(s.medic_name)),
{
    lemma_escape_roundtrip(or_empty(s.company_name));
    lemma_escape_roundtrip(or_empty(s.company_address));
    lemma_escape_roundtrip(or_empty(s.company_inn));
    lemma_escape_roundtrip(or_empty(s.dispatcher_name));
    lemma_escape_roundtrip(or_empty(s.mechanic_name));
    lemma_escape_roundtrip(or_empty(s.medic_name));
}

/// A waybill call is, on lines of its own: the form for the vehicle (the
/// tractor form exactly for type "Трактор"), the driver's part, the
/// vehicle's part, the date as a literal that reads back as the date, the
/// organisation's part, the task table, and the tractor mode ("cargo" where
/// none is given) as a literal that reads back as it.
pub proof fn lemma_waybill_call_parts(
    d: Driver,
    v: Vehicle,
    s: CompanySettings,
    date: Seq<char>,
    item: PrintBatchItem,
)
    ensures
        spec_waybill_call(d, v, s, date, item) == "\n"@
            + (if v.vehicle_type matches Some(t) && t@ == "Трактор"@ { "#waybill_tractor"@ } else { "#waybill_truck"@ })
            + spec_driver_args(d)
            + spec_vehicle_args(v)
            + "\",\n  date: \""@ + spec_escape_typst(date)
            + spec_company_args(s)
            + "\",\n  tasks: "@ + spec_format_tasks(item.tasks@)
            + ",\n  tractor_mode: \""@ + spec_escape_typst(
                match item.tractor_mode { Some(m) => m@, None => "cargo"@ })
            + "\"\n)\n"@,
        is_literal_body_of(spec_escape_typst(date), date),
        is_literal_body_of(
            spec_escape_typst(match item.tractor_mode { Some(m) => m@, None => "cargo"@ }),
            match item.tractor_mode { Some(m) => m@, None => "cargo"@ },
        ),
{
    lemma_waybill_form_choice(v.vehicle_type);
    lemma_escape_roundtrip(date);
    lemma_escape_roundtrip(match item.tractor_mode { Some(m) => m@, None => "cargo"@ });
}

/// A waybill is dated with the date it asks for where it asks for one, and
/// with today's date, as given, where it does not.
pub proof fn lemma_waybill_date_choice(requested: Option<String>, today: Option<String>)
    ensures
        requested matches Some(d) ==> spec_waybill_date(requested, today) == d@,
        requested is None ==> (today matches Some(t) ==> spec_waybill_date(requested, today) == t@),
{
}

} // verus!
