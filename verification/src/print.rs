//! Printing a batch of waybills: fetching what they need, writing their
//! Typst source, and compiling it to a PDF.

use vstd::prelude::*;
use crate::auth::{api_error, database_error, is_api_error, ApiError, INTERNAL_SERVER_ERROR, NOT_FOUND};
use crate::records::{CompanySettings, Driver, Vehicle};
use crate::waybill::{render_waybill_call, spec_waybill_call, spec_waybill_date, waybill_date, PrintBatchItem};

verus! {

/// Where the Typst template of the waybill forms lies.
pub const TEMPLATE_PATH: &'static str = "templates/template.typ";
/// Where the Typst source of a batch is written before it is compiled.
pub const SOURCE_PATH: &'static str = "data/temp_batch.typ";
/// Where the compiled PDF is written.
pub const PDF_PATH: &'static str = "static/out_batch.pdf";
/// The address the compiled PDF is served at.
pub const PDF_URL: &'static str = "/out_batch.pdf";
/// What stands between two waybills of a batch.
pub const PAGE_BREAK: &'static str = "\n#pagebreak()\n";
/// What a successful print reports.
pub const PRINT_OK_MESSAGE: &'static str = "OK";
/// What precedes the compiler's complaint in a failed print.
pub const PRINT_FAILED_PREFIX: &'static str = "Ошибка: ";
/// What precedes the reason of a failed write of the source.
pub const WRITE_ERROR_PREFIX: &'static str = "Write error: ";

/// The Typst compiler binary: where the service finds it, and the name it
/// is installed under beside the service's executable.
#[derive(Debug, Clone, Copy)]
pub struct TypstBinary {
    pub bundled_path: &'static str,
    pub installed_name: &'static str,
}

/// The Typst compiler binary for Windows or for Linux.
pub fn typst_binary(windows: bool) -> (b: TypstBinary)
    ensures
        windows ==> b.bundled_path@ == "bin/typst-windows.exe"@ && b.installed_name@ == "typst.exe"@,
        !windows ==> b.bundled_path@ == "bin/typst-linux"@ && b.installed_name@ == "typst"@,
{
    if windows {
        TypstBinary { bundled_path: "bin/typst-windows.exe", installed_name: "typst.exe" }
    } else {
        TypstBinary { bundled_path: "bin/typst-linux", installed_name: "typst" }
    }
}

/// The answer to a print request.
#[derive(Debug)]
pub struct PrintResponse {
    pub success: bool,
    pub message: String,
    pub pdf_url: Option<String>,
}

/// How the run of the Typst compiler went.
#[derive(Debug)]
pub enum TypstOutcome {
    /// It compiled the source.
    Succeeded,
    /// It ran and failed, complaining on its error stream.
    Failed { stderr: String },
    /// It could not be started.
    NotStarted { error: String },
}

/// The answer that a run of the compiler leads to.
pub open spec fn spec_print_response(outcome: TypstOutcome, r: PrintResponse) -> bool {
    match outcome {
        TypstOutcome::Succeeded => r.success && r.message@ == PRINT_OK_MESSAGE@
            && (r.pdf_url matches Some(u) && u@ == PDF_URL@),
        TypstOutcome::Failed { stderr } => !r.success && r.message@ == PRINT_FAILED_PREFIX@ + stderr@
            && r.pdf_url is None,
        TypstOutcome::NotStarted { error } => !r.success && r.message@ == error@ && r.pdf_url is None,
    }
}

/// The answer that a run of the compiler leads to: the PDF's address where
/// it compiled, else the complaint or the reason it did not start.
pub fn print_response(outcome: TypstOutcome) -> (r: PrintResponse)
    ensures
        spec_print_response(outcome, r),
{
    match outcome {
        TypstOutcome::Succeeded => PrintResponse {
            success: true,
            message: String::from_str(PRINT_OK_MESSAGE),
            pdf_url: Some(String::from_str(PDF_URL)),
        },
        TypstOutcome::Failed { stderr } => {
            let mut message = String::from_str(PRINT_FAILED_PREFIX);
            message.append(stderr.as_str());
            PrintResponse { success: false, message, pdf_url: None }
        },
        TypstOutcome::NotStarted { error } => PrintResponse { success: false, message: error, pdf_url: None },
    }
}

/// Whether `date` can be what a waybill that asked for `requested` is dated:
/// the date asked for where there is one; where there is none, the date of
/// the day it was printed, which the caller read from the clock.
pub open spec fn is_date_for(requested: Option<String>, date: Seq<char>) -> bool {
    match requested {
        Some(d) => date == d@,
        None => true,
    }
}

/// The Typst source of the first `n` waybills of a batch, each page with
/// the driver, vehicle and date it was printed with, pages separated by page
/// breaks.
pub open spec fn spec_pages(
    items: Seq<PrintBatchItem>,
    drivers: Seq<Driver>,
    vehicles: Seq<Vehicle>,
    dates: Seq<Seq<char>>,
    settings: CompanySettings,
    n: nat,
) -> Seq<char>
    decreases n,
{
    if n == 0 {
        Seq::<char>::empty()
    } else {
        let i = n - 1;
        spec_pages(items, drivers, vehicles, dates, settings, (n - 1) as nat)
            + (if n > 1 { PAGE_BREAK@ } else { Seq::<char>::empty() })
            + spec_waybill_call(drivers[i], vehicles[i], settings, dates[i], items[i])
    }
}

/// The whole Typst source of a batch: the template, a line break, the pages.
pub open spec fn spec_batch_source(template: Seq<char>, pages: Seq<char>) -> Seq<char> {
    template + "\n"@ + pages
}

/// Where a print request stands: what the service waits for.
#[derive(Debug)]
pub enum PrintStage {
    /// The template is being read.
    ReadingTemplate,
    /// The organisation details are being fetched.
    FetchingSettings,
    /// The driver of the next waybill is being fetched.
    FetchingDriver,
    /// The vehicle of the next waybill is being fetched; its driver is known.
    FetchingVehicle { driver: Driver },
    /// The source of the batch is being written.
    WritingSource,
    /// The compiler is running.
    Compiling,
    /// The answer has been given.
    Done,
}

/// What the outside work of a print step came back with.
#[derive(Debug)]
pub enum PrintEvent {
    /// The template, or `None` where it could not be read.
    TemplateRead { template: Option<String> },
    /// The organisation details, or `None` where there are none or the query failed.
    SettingsFetched { settings: Option<CompanySettings> },
    /// The driver, or `None` where the user has no such driver or the query failed.
    DriverFetched { driver: Option<Driver> },
    /// The vehicle, or `None` where the user has no such vehicle or the query
    /// failed; and today's date, written `%d.%m.%Y` in local time, where the
    /// fetch asked for it.
    VehicleFetched { vehicle: Option<Vehicle>, today: Option<String> },
    /// `None` where the source was written, else why it was not.
    SourceWritten { error: Option<String> },
    /// How the compiler's run went.
    TypstFinished { outcome: TypstOutcome },
}

/// The outside work that a print step asks for next.
#[derive(Debug)]
pub enum PrintAction {
    /// Read the template at this path.
    ReadTemplate { path: &'static str },
    /// Fetch the user's organisation details.
    FetchSettings { user_id: i64 },
    /// Fetch this driver of the user.
    FetchDriver { driver_id: i32, user_id: i64 },
    /// Fetch this vehicle of the user; where `needs_today`, the waybill asks
    /// for no date and today's date is wanted with the vehicle.
    FetchVehicle { vehicle_id: i32, user_id: i64, needs_today: bool },
    /// Write the source of the batch to this path.
    WriteSource { path: &'static str, contents: String },
    /// Compile the source at this path to a PDF at that path.
    RunTypst { source: &'static str, output: &'static str },
    /// Refuse the request.
    Fail { error: ApiError },
    /// Remove the source, then answer.
    Finish { response: PrintResponse },
}

/// A print request under way.
pub struct PrintFlow {
    pub user_id: i64,
    pub items: Vec<PrintBatchItem>,
    pub stage: PrintStage,
    pub template: String,
    pub settings: Option<CompanySettings>,
    /// How many waybills have been printed so far.
    pub printed_count: usize,
    /// The source of the waybills printed so far.
    pub pages: String,
    /// The driver of each waybill printed so far.
    pub drivers: Ghost<Seq<Driver>>,
    /// The vehicle of each waybill printed so far.
    pub vehicles: Ghost<Seq<Vehicle>>,
    /// The date of each waybill printed so far.
    pub dates: Ghost<Seq<Seq<char>>>,
}

impl PrintFlow {
    /// How many waybills have been printed so far.
    pub open spec fn printed(self) -> nat {
        self.printed_count as nat
    }

    /// The source of the waybills printed so far, as it should be.
    pub open spec fn spec_printed_pages(self) -> Seq<char> {
        spec_pages(self.items@, self.drivers@, self.vehicles@, self.dates@, self.settings->0, self.printed())
    }

    /// The invariant of a print request under way.
    pub open spec fn wf(self) -> bool {
        &&& self.drivers@.len() == self.printed()
        &&& self.vehicles@.len() == self.printed()
        &&& self.dates@.len() == self.printed()
        &&& self.printed() <= self.items@.len()
        &&& forall|i: int| 0 <= i < self.printed() ==> is_date_for(#[trigger] self.items@[i].date, self.dates@[i])
        &&& match self.stage {
            PrintStage::ReadingTemplate | PrintStage::FetchingSettings => self.printed() == 0
                && self.pages@ == Seq::<char>::empty(),
            PrintStage::FetchingDriver | PrintStage::FetchingVehicle { .. } => {
                &&& self.settings is Some
                &&& self.printed() < self.items@.len()
                &&& self.pages@ == self.spec_printed_pages()
            },
            PrintStage::WritingSource | PrintStage::Compiling => {
                &&& self.settings is Some
                &&& self.printed() == self.items@.len()
                &&& self.pages@ == self.spec_printed_pages()
            },
            PrintStage::Done => true,
        }
    }

    /// Whether `e` answers what this request waits for.
    pub open spec fn expects(self, e: PrintEvent) -> bool {
        match self.stage {
            PrintStage::ReadingTemplate => e is TemplateRead,
            PrintStage::FetchingSettings => e is SettingsFetched,
            PrintStage::FetchingDriver => e is DriverFetched,
            PrintStage::FetchingVehicle { .. } => e matches PrintEvent::VehicleFetched { vehicle, today }
                && (vehicle is Some && self.items@[self.printed() as int].date is None ==> today is Some),
            PrintStage::WritingSource => e is SourceWritten,
            PrintStage::Compiling => e is TypstFinished,
            PrintStage::Done => false,
        }
    }

    /// Whether the request keeps who asked, for what, and what has been
    /// printed so far.
    pub open spec fn keeps_request(self, next: PrintFlow) -> bool {
        &&& next.user_id == self.user_id
        &&& next.items@ == self.items@
    }

    /// Whether the request keeps the template, the organisation details and
    /// the waybills printed so far, with their drivers, vehicles and dates.
    pub open spec fn keeps_progress(self, next: PrintFlow) -> bool {
        &&& next.template == self.template
        &&& next.settings == self.settings
        &&& next.printed_count == self.printed_count
        &&& next.pages == self.pages
        &&& next.drivers == self.drivers
        &&& next.vehicles == self.vehicles
        &&& next.dates == self.dates
    }

    /// Whether the request is refused with this status and message.
    pub open spec fn fails_with(next: PrintFlow, action: PrintAction, status: u16, message: Seq<char>) -> bool {
        &&& next.stage is Done
        &&& action matches PrintAction::Fail { error } && is_api_error(error, status, message)
    }

    /// What comes after the waybills printed so far, in `next`: the driver of
    /// the next one, or the writing of the source once all are printed.
    pub open spec fn next_page_or_source(next: PrintFlow, action: PrintAction) -> bool {
        if next.printed() < next.items@.len() {
            &&& next.stage is FetchingDriver
            &&& action == (PrintAction::FetchDriver {
                driver_id: next.items@[next.printed() as int].driver_id,
                user_id: next.user_id,
            })
        } else {
            &&& next.stage is WritingSource
            &&& action matches PrintAction::WriteSource { path, contents }
            &&& path@ == SOURCE_PATH@
            &&& contents@ == spec_batch_source(next.template@, next.pages@)
        }
    }

    /// Whether `next` and `action` are what a step of this request on `event`
    /// leads to.
    pub open spec fn transition(self, event: PrintEvent, next: PrintFlow, action: PrintAction) -> bool {
        &&& self.keeps_request(next)
        &&& match (self.stage, event) {
            (PrintStage::ReadingTemplate, PrintEvent::TemplateRead { template }) => match template {
                Some(t) => next.stage is FetchingSettings && next.template == t
                    && next.settings == self.settings
                    && next.printed() == self.printed()
                    && next.pages == self.pages
                    && next.drivers == self.drivers
                    && next.vehicles == self.vehicles
                    && next.dates == self.dates
                    && action == (PrintAction::FetchSettings { user_id: self.user_id }),
                None => Self::fails_with(next, action, INTERNAL_SERVER_ERROR, "Template not found"@),
            },
            (PrintStage::FetchingSettings, PrintEvent::SettingsFetched { settings }) => match settings {
                Some(s) => next.settings == Some(s) && next.template == self.template
                    && next.printed() == 0 && next.pages@ == Seq::<char>::empty()
                    && Self::next_page_or_source(next, action),
                None => Self::fails_with(next, action, INTERNAL_SERVER_ERROR, "Database error"@),
            },
            (PrintStage::FetchingDriver, PrintEvent::DriverFetched { driver }) => match driver {
                Some(d) => next.stage == (PrintStage::FetchingVehicle { driver: d })
                    && self.keeps_progress(next)
                    && action == (PrintAction::FetchVehicle {
                        vehicle_id: self.items@[self.printed() as int].vehicle_id,
                        user_id: self.user_id,
                        needs_today: self.items@[self.printed() as int].date is None,
                    }),
                None => Self::fails_with(next, action, NOT_FOUND, "Driver not found"@),
            },
            (PrintStage::FetchingVehicle { driver }, PrintEvent::VehicleFetched { vehicle, today }) => match vehicle {
                Some(v) => {
                    let i = self.printed() as int;
                    &&& next.template == self.template
                    &&& next.settings == self.settings
                    &&& next.drivers@ == self.drivers@.push(driver)
                    &&& next.vehicles@ == self.vehicles@.push(v)
                    &&& next.printed() == self.printed() + 1
                    &&& next.dates@.len() == i + 1
                    &&& next.dates@.take(i) == self.dates@
                    &&& next.dates@[i] == spec_waybill_date(self.items@[i].date, today)
                    &&& next.pages@ == self.pages@
                        + (if i > 0 { PAGE_BREAK@ } else { Seq::<char>::empty() })
                        + spec_waybill_call(driver, v, self.settings->0, next.dates@[i], self.items@[i])
                    &&& Self::next_page_or_source(next, action)
                },
                None => Self::fails_with(next, action, NOT_FOUND, "Vehicle not found"@),
            },
            (PrintStage::WritingSource, PrintEvent::SourceWritten { error }) => match error {
                None => next.stage is Compiling && self.keeps_progress(next) && action == (PrintAction::RunTypst {
                    source: SOURCE_PATH,
                    output: PDF_PATH,
                }),
                Some(e) => Self::fails_with(next, action, INTERNAL_SERVER_ERROR, WRITE_ERROR_PREFIX@ + e@),
            },
            (PrintStage::Compiling, PrintEvent::TypstFinished { outcome }) => next.stage is Done
                && (action matches PrintAction::Finish { response } && spec_print_response(outcome, response)),
            _ => false,
        }
    }
}

impl PrintFlow {
    /// The first step of a print request of this user: read the template.
    pub fn start(user_id: i64, items: Vec<PrintBatchItem>) -> (r: (PrintFlow, PrintAction))
        ensures
            r.0.wf(),
            r.0.stage is ReadingTemplate,
            r.0.user_id == user_id,
            r.0.items@ == items@,
            r.1 == (PrintAction::ReadTemplate { path: TEMPLATE_PATH }),
    {
        let flow = PrintFlow {
            user_id,
            items,
            stage: PrintStage::ReadingTemplate,
            template: String::new(),
            settings: None,
            printed_count: 0,
            pages: String::new(),
            drivers: Ghost(Seq::empty()),
            vehicles: Ghost(Seq::empty()),
            dates: Ghost(Seq::empty()),
        };
        (flow, PrintAction::ReadTemplate { path: TEMPLATE_PATH })
    }

    /// The step after the waybills printed so far: fetch the next driver, or
    /// write the source once all are printed.
    fn after_pages(self) -> (r: (PrintFlow, PrintAction))
        requires
            self.settings is Some,
            self.printed() <= self.items@.len(),
            self.drivers@.len() == self.printed(),
            self.vehicles@.len() == self.printed(),
            self.dates@.len() == self.printed(),
            forall|i: int| 0 <= i < self.printed() ==> is_date_for(#[trigger] self.items@[i].date, self.dates@[i]),
            self.pages@ == self.spec_printed_pages(),
        ensures
            r.0.wf(),
            self.keeps_request(r.0),
            r.0.template == self.template,
            r.0.settings == self.settings,
            r.0.pages == self.pages,
            r.0.drivers == self.drivers,
            r.0.vehicles == self.vehicles,
            r.0.dates == self.dates,
            r.0.printed_count == self.printed_count,
            Self::next_page_or_source(r.0, r.1),
    {
        let n = self.printed_count;
        if n < self.items.len() {
            let driver_id = self.items[n].driver_id;
            let user_id = self.user_id;
            (PrintFlow { stage: PrintStage::FetchingDriver, ..self }, PrintAction::FetchDriver { driver_id, user_id })
        } else {
            let mut contents = self.template.clone();
            contents.append("\n");
            contents.append(self.pages.as_str());
            (PrintFlow { stage: PrintStage::WritingSource, ..self }, PrintAction::WriteSource {
                path: SOURCE_PATH,
                contents,
            })
        }
    }

    /// Ends the request with a refusal.
    fn fail(self, error: ApiError) -> (r: (PrintFlow, PrintAction))
        ensures
            self.keeps_request(r.0),
            r.0.stage is Done,
            r.0.printed_count == self.printed_count,
            r.0.drivers == self.drivers,
            r.0.vehicles == self.vehicles,
            r.0.dates == self.dates,
            r.1 == (PrintAction::Fail { error }),
    {
        (PrintFlow { stage: PrintStage::Done, ..self }, PrintAction::Fail { error })
    }

    /// One step of a print request: from where it stands and what the last
    /// outside work came back with, to where it stands next and what to do
    /// next.
    #[verifier::rlimit(30)]
    pub fn step(self, event: PrintEvent) -> (r: (PrintFlow, PrintAction))
        requires
            self.wf(),
            self.expects(event),
        ensures
            r.0.wf(),
            self.transition(event, r.0, r.1),
    {
        let ghost old_self = self;
        let mut this = self;
        let mut stage = PrintStage::Done;
        core::mem::swap(&mut stage, &mut this.stage);
        match (stage, event) {
            (PrintStage::ReadingTemplate, PrintEvent::TemplateRead { template }) => match template {
                Some(t) => {
                    let user_id = this.user_id;
                    (PrintFlow { stage: PrintStage::FetchingSettings, template: t, ..this },
                        PrintAction::FetchSettings { user_id })
                },
                None => this.fail(api_error(INTERNAL_SERVER_ERROR, "Template not found")),
            },
            (PrintStage::FetchingSettings, PrintEvent::SettingsFetched { settings }) => match settings {
                Some(st) => {
                    let flow = PrintFlow {
                        stage: PrintStage::FetchingSettings,
                        settings: Some(st),
                        pages: String::new(),
                        ..this
                    };
                    proof {
                        assert(flow.spec_printed_pages() == Seq::<char>::empty());
                    }
                    flow.after_pages()
                },
                None => this.fail(database_error()),
            },
            (PrintStage::FetchingDriver, PrintEvent::DriverFetched { driver }) => match driver {
                Some(d) => {
                    let vehicle_id = this.items[this.printed_count].vehicle_id;
                    let needs_today = this.items[this.printed_count].date.is_none();
                    let user_id = this.user_id;
                    (PrintFlow { stage: PrintStage::FetchingVehicle { driver: d }, ..this },
                        PrintAction::FetchVehicle { vehicle_id, user_id, needs_today })
                },
                None => this.fail(api_error(NOT_FOUND, "Driver not found")),
            },
            (PrintStage::FetchingVehicle { driver }, PrintEvent::VehicleFetched { vehicle, today }) => match vehicle {
                Some(v) => {
                    let i = this.printed_count;
                    assert(i < this.items.len());
                    let date = waybill_date(&this.items[i].date, &today);
                    let settings = match &this.settings {
                        Some(st) => st,
                        None => {
                            proof {
                                assert(false);
                            }
                            return this.fail(database_error());
                        },
                    };
                    let call = render_waybill_call(&driver, &v, settings, &date, &this.items[i]);
                    let mut pages = this.pages;
                    if i > 0 {
                        pages.append(PAGE_BREAK);
                    }
                    pages.append(call.as_str());
                    let ghost drivers = this.drivers@.push(driver);
                    let ghost vehicles = this.vehicles@.push(v);
                    let ghost dates = this.dates@.push(date@);
                    let flow = PrintFlow {
                        stage: PrintStage::FetchingVehicle { driver },
                        printed_count: i + 1,
                        pages,
                        drivers: Ghost(drivers),
                        vehicles: Ghost(vehicles),
                        dates: Ghost(dates),
                        ..this
                    };
                    proof {
                        lemma_pages_extend(old_self.items@, old_self.drivers@, old_self.vehicles@,
                            old_self.dates@, old_self.settings->0, driver, v, date@);
                        assert(dates.take(i as int) =~= old_self.dates@);
                        assert forall|k: int| 0 <= k < flow.printed() implies is_date_for(
                            #[trigger] flow.items@[k].date, flow.dates@[k]) by {
                            if k < i {
                                assert(flow.dates@[k] == old_self.dates@[k]);
                            }
                        }
                    }
                    flow.after_pages()
                },
                None => this.fail(api_error(NOT_FOUND, "Vehicle not found")),
            },
            (PrintStage::WritingSource, PrintEvent::SourceWritten { error }) => match error {
                None => (PrintFlow { stage: PrintStage::Compiling, ..this }, PrintAction::RunTypst {
                    source: SOURCE_PATH,
                    output: PDF_PATH,
                }),
                Some(e) => {
                    let mut message = String::from_str(WRITE_ERROR_PREFIX);
                    message.append(e.as_str());
                    this.fail(ApiError { status: INTERNAL_SERVER_ERROR, message })
                },
            },
            (PrintStage::Compiling, PrintEvent::TypstFinished { outcome }) => {
                let response = print_response(outcome);
                (PrintFlow { stage: PrintStage::Done, ..this }, PrintAction::Finish { response })
            },
            _ => {
                proof {
                    assert(false);
                }
                this.fail(database_error())
            },
        }
    }
}

/// Printing one more waybill appends, after a page break where it is not
/// the first, its call.
proof fn lemma_pages_extend(
    items: Seq<PrintBatchItem>,
    drivers: Seq<Driver>,
    vehicles: Seq<Vehicle>,
    dates: Seq<Seq<char>>,
    settings: CompanySettings,
    d: Driver,
    v: Vehicle,
    date: Seq<char>,
)
    requires
        drivers.len() == vehicles.len(),
        dates.len() == vehicles.len(),
        vehicles.len() < items.len(),
    ensures
        ({
            let n = vehicles.len();
            spec_pages(items, drivers.push(d), vehicles.push(v), dates.push(date), settings, n + 1)
                == spec_pages(items, drivers, vehicles, dates, settings, n)
                    + (if n > 0 { PAGE_BREAK@ } else { Seq::<char>::empty() })
                    + spec_waybill_call(d, v, settings, date, items[n as int])
        }),
{
    let n = vehicles.len();
    lemma_pages_prefix(items, drivers, vehicles, dates, settings, drivers.push(d), vehicles.push(v),
        dates.push(date), n);
}

/// The first `n` pages depend only on the first `n` drivers, vehicles and
/// dates.
proof fn lemma_pages_prefix(
    items: Seq<PrintBatchItem>,
    drivers: Seq<Driver>,
    vehicles: Seq<Vehicle>,
    dates: Seq<Seq<char>>,
    settings: CompanySettings,
    drivers2: Seq<Driver>,
    vehicles2: Seq<Vehicle>,
    dates2: Seq<Seq<char>>,
    n: nat,
)
    requires
        n <= drivers.len(),
        n <= vehicles.len(),
        n <= dates.len(),
        n <= drivers2.len(),
        n <= vehicles2.len(),
        n <= dates2.len(),
        forall|i: int| 0 <= i < n ==> drivers[i] == drivers2[i] && vehicles[i] == vehicles2[i] && dates[i] == dates2[i],
    ensures
        spec_pages(items, drivers, vehicles, dates, settings, n)
            == spec_pages(items, drivers2, vehicles2, dates2, settings, n),
    decreases n,
{
    if n > 0 {
        lemma_pages_prefix(items, drivers, vehicles, dates, settings, drivers2, vehicles2, dates2, (n - 1) as nat);
    }
}

impl PrintFlow {
    /// How many steps at most are left before the answer.
    pub open spec fn steps_left(self) -> nat {
        let rest = (2 * (self.items@.len() - self.printed())) as nat;
        match self.stage {
            PrintStage::ReadingTemplate => rest + 4,
            PrintStage::FetchingSettings => rest + 3,
            PrintStage::FetchingDriver => rest + 2,
            PrintStage::FetchingVehicle { .. } => rest + 1,
            PrintStage::WritingSource => 2,
            PrintStage::Compiling => 1,
            PrintStage::Done => 0,
        }
    }
}

/// Each step of a print request brings it closer to its answer, and a step
/// answers exactly when it ends the request; so a request for `n` waybills
/// answers within `2 n + 4` steps, and answers once.
#[verifier::rlimit(30)]
pub proof fn lemma_print_progress(flow: PrintFlow, event: PrintEvent, next: PrintFlow, action: PrintAction)
    requires
        flow.wf(),
        flow.transition(event, next, action),
    ensures
        next.steps_left() < flow.steps_left(),
        (action is Fail || action is Finish) <==> (next.stage is Done),
{
}

/// A print request only ever fetches the organisation details, drivers and
/// vehicles of the user who made it, and the drivers and vehicles are the
/// ones the request names, in the order it names them.
#[verifier::rlimit(30)]
pub proof fn lemma_print_fetches_own_records(
    flow: PrintFlow,
    event: PrintEvent,
    next: PrintFlow,
    action: PrintAction,
)
    requires
        flow.wf(),
        flow.transition(event, next, action),
    ensures
        action matches PrintAction::FetchSettings { user_id } ==> user_id == flow.user_id,
        action matches PrintAction::FetchDriver { driver_id, user_id } ==> user_id == flow.user_id
            && driver_id == flow.items@[next.printed() as int].driver_id,
        action matches PrintAction::FetchVehicle { vehicle_id, user_id, .. } ==> user_id == flow.user_id
            && vehicle_id == flow.items@[next.printed() as int].vehicle_id,
{
}

/// From the reading of the template to the answer, a print request keeps
/// the template it read; once the organisation details are fetched it keeps
/// them too; and it never drops or changes a waybill it has printed.
pub proof fn lemma_print_keeps_what_it_read(
    flow: PrintFlow,
    event: PrintEvent,
    next: PrintFlow,
    action: PrintAction,
)
    requires
        flow.wf(),
        flow.transition(event, next, action),
        !(next.stage is Done),
    ensures
        !(flow.stage is ReadingTemplate) ==> next.template == flow.template,
        !(flow.stage is ReadingTemplate || flow.stage is FetchingSettings) ==> next.settings == flow.settings,
        flow.printed() <= next.printed(),
        next.drivers@.take(flow.printed() as int) == flow.drivers@,
        next.vehicles@.take(flow.printed() as int) == flow.vehicles@,
        next.dates@.take(flow.printed() as int) == flow.dates@,
        next.pages@.take(flow.pages@.len() as int) == flow.pages@,
{
    if flow.stage is FetchingVehicle {
        assert(next.drivers@.take(flow.printed() as int) =~= flow.drivers@);
        assert(next.vehicles@.take(flow.printed() as int) =~= flow.vehicles@);
        assert(next.pages@.take(flow.pages@.len() as int) =~= flow.pages@);
    } else {
        assert(next.drivers@.take(flow.printed() as int) =~= flow.drivers@);
        assert(next.vehicles@.take(flow.printed() as int) =~= flow.vehicles@);
        assert(next.dates@.take(flow.printed() as int) =~= flow.dates@);
        assert(next.pages@.take(flow.pages@.len() as int) =~= flow.pages@);
    }
}

/// The source a print request compiles is the template it read, a line
/// break, and one waybill for every requested item, in the order requested,
/// each with the driver and vehicle fetched for it and dated as it asked
/// (or with the date of the day), separated by page breaks.
#[verifier::rlimit(30)]
pub proof fn lemma_print_source_holds_every_item(
    flow: PrintFlow,
    event: PrintEvent,
    next: PrintFlow,
    action: PrintAction,
)
    requires
        flow.wf(),
        flow.transition(event, next, action),
        next.wf(),
        action is WriteSource,
    ensures
        action matches PrintAction::WriteSource { contents, .. } && contents@ == spec_batch_source(
            flow.template@,
            spec_pages(next.items@, next.drivers@, next.vehicles@, next.dates@, next.settings->0,
                next.items@.len()),
        ),
        next.template == flow.template,
        next.drivers@.len() == next.items@.len(),
        next.vehicles@.len() == next.items@.len(),
        forall|i: int| 0 <= i < next.items@.len() ==> is_date_for(#[trigger] next.items@[i].date, next.dates@[i]),
{
}

/// A compiled batch is reported as a success with message "OK" and the PDF
/// at "/out_batch.pdf"; a failed compile as a failure with "Ошибка: " and the
/// compiler's complaint and no PDF; a compiler that did not start as a
/// failure with the reason and no PDF.
pub proof fn lemma_print_response_texts(outcome: TypstOutcome, r: PrintResponse)
    requires
        spec_print_response(outcome, r),
    ensures
        outcome is Succeeded ==> r.success && r.message@ == "OK"@ && (r.pdf_url matches Some(u)
            && u@ == "/out_batch.pdf"@),
        outcome matches TypstOutcome::Failed { stderr } ==> !r.success
            && r.message@ == "Ошибка: "@ + stderr@ && r.pdf_url is None,
        outcome matches TypstOutcome::NotStarted { error } ==> !r.success && r.message@ == error@
            && r.pdf_url is None,
{
}

} // verus!
