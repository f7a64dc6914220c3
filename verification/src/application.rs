//! Application orchestration for the shadow incident workflow.
//!
//! This module owns provider admission policy, cost reservation and the order
//! in which the incident worker acts. Every action itself is the caller's.

use crate::text;
use crate::text::number;
use crate::text::trim;
use vstd::prelude::*;

/// Remote validation and durable manual handoff.
pub mod manual_repair;
/// Bounded local operator requests.
pub mod manual_repair_admin;
/// The order in which the incident worker acts.
pub mod worker;

verus! {

/// Application startup and worker failures after configuration parsing.
#[derive(Debug, Clone, Copy, PartialEq, Eq, Structural)]
pub enum ApplicationError {
    /// Dependency assembly failed.
    Bootstrap(crate::bootstrap::BootstrapError),
    /// The listener address could not be parsed.
    Address,
    /// The listener could not bind.
    Bind,
    /// The durable journal could not open.
    Journal,
    /// The HTTP intake stopped.
    Intake,
    /// Intake authentication was not configured.
    MissingIntakeCredential,
    /// Operator notification delivery was not configured.
    MissingNotificationConfig,
    /// The incident worker stopped after a durable processing failure.
    WorkerFailed,
}

/// Price list of one provider model.
pub struct PriceCatalog {
    /// Provider.
    pub provider: String,
    /// Model.
    pub model: String,
    /// Version.
    pub version: String,
    /// Unix millisecond until which it holds.
    pub valid_until_ms: u64,
    /// Price in micro-USD.
    pub micro_usd_per_1k_tokens: u64,
}

impl PriceCatalog {
    /// A current list with a price, of exactly this provider and model.
    pub open spec fn prices(self, provider: Seq<char>, model: Seq<char>, now_ms: u64) -> bool {
        &&& self.provider@ == provider
        &&& self.model@ == model
        &&& !trim::is_blank(self.model@)
        &&& !trim::is_blank(self.version@)
        &&& self.valid_until_ms > now_ms
        &&& self.micro_usd_per_1k_tokens > 0
    }
}

/// Validates a parsed price list; one that could not be parsed prices nothing.
pub fn valid_price_catalog(
    catalog: Option<&PriceCatalog>,
    provider: &str,
    model: &str,
    now_ms: u64,
) -> (r: bool)
    ensures
        r == (catalog matches Some(catalog) && catalog.prices(provider@, model@, now_ms)),
{
    match catalog {
        Some(catalog) => text::text_eq(catalog.provider.as_str(), provider) && text::text_eq(
            catalog.model.as_str(),
            model,
        ) && !trim::blank(catalog.model.as_str()) && !trim::blank(catalog.version.as_str())
            && catalog.valid_until_ms > now_ms && catalog.micro_usd_per_1k_tokens > 0,
        None => false,
    }
}

/// Cost ceilings over all incidents.
pub struct CostLimits {
    /// Daily ceiling in micro-USD.
    pub daily: u64,
    /// Monthly ceiling in micro-USD.
    pub monthly: u64,
    /// Name of the day.
    pub day: String,
    /// Name of the month.
    pub month: String,
}

/// The settings of the cost ceilings, each as far as it is set.
pub struct CostSettings {
    /// Daily ceiling in micro-USD.
    pub daily: Option<String>,
    /// Monthly ceiling in micro-USD.
    pub monthly: Option<String>,
    /// Name of the day.
    pub day: Option<String>,
    /// Name of the month.
    pub month: Option<String>,
}

/// A ceiling: a positive number of 64 bits.
pub open spec fn ceiling(setting: Option<String>) -> Option<nat> {
    match setting {
        Some(digits) => match number::parsed(digits@, u64::MAX as nat) {
            Some(n) => if n > 0 {
                Some(n)
            } else {
                None
            },
            None => None,
        },
        None => None,
    }
}

/// A name: a text that is not blank.
pub open spec fn period(setting: Option<String>) -> Option<Seq<char>> {
    match setting {
        Some(name) => if trim::is_blank(name@) {
            None
        } else {
            Some(name@)
        },
        None => None,
    }
}

impl CostSettings {
    /// All four settings are usable.
    pub open spec fn complete(self) -> bool {
        ceiling(self.daily) is Some && ceiling(self.monthly) is Some && period(self.day) is Some
            && period(self.month) is Some
    }
}

fn read_ceiling(setting: &Option<String>) -> (r: Option<u64>)
    ensures
        match r {
            Some(n) => ceiling(*setting) == Some(n as nat),
            None => ceiling(*setting) is None,
        },
{
    match setting {
        Some(digits) => match number::parse_unsigned(digits.as_str(), u64::MAX) {
            Some(n) => {
                if n > 0 {
                    Some(n)
                } else {
                    None
                }
            },
            None => None,
        },
        None => None,
    }
}

fn read_period(setting: &Option<String>) -> (r: Option<String>)
    ensures
        match r {
            Some(name) => period(*setting) == Some(name@),
            None => period(*setting) is None,
        },
{
    match setting {
        Some(name) => {
            if trim::blank(name.as_str()) {
                None
            } else {
                Some(name.clone())
            }
        },
        None => None,
    }
}

/// The cost ceilings, unless a setting is missing or unusable.
pub fn global_cost_limits(settings: &CostSettings) -> (r: Option<CostLimits>)
    ensures
        match r {
            Some(limits) => {
                &&& settings.complete()
                &&& ceiling(settings.daily) == Some(limits.daily as nat)
                &&& ceiling(settings.monthly) == Some(limits.monthly as nat)
                &&& period(settings.day) == Some(limits.day@)
                &&& period(settings.month) == Some(limits.month@)
            },
            None => !settings.complete(),
        },
{
    let daily: u64 = match read_ceiling(&settings.daily) {
        Some(daily) => daily,
        None => return None,
    };
    let monthly: u64 = match read_ceiling(&settings.monthly) {
        Some(monthly) => monthly,
        None => return None,
    };
    let day = match read_period(&settings.day) {
        Some(day) => day,
        None => return None,
    };
    let month = match read_period(&settings.month) {
        Some(month) => month,
        None => return None,
    };
    Some(CostLimits { daily, monthly, day, month })
}

/// What the environment says of one paid provider.
pub struct ProviderSettings {
    /// Key.
    pub api_key: Option<String>,
    /// Gate word.
    pub gate: Option<String>,
    /// Price list, where one is set and could be parsed.
    pub catalog: Option<PriceCatalog>,
}

/// A paid provider is admitted: it has a key, an accepted gate, current prices, and the cost
/// ceilings are complete.
pub open spec fn is_admitted(
    settings: ProviderSettings,
    costs: CostSettings,
    provider: Seq<char>,
    model: Seq<char>,
    now_ms: u64,
) -> bool {
    &&& settings.api_key is Some
    &&& settings.gate matches Some(word) && word@ == "accepted"@
    &&& settings.catalog matches Some(catalog) && catalog.prices(provider, model, now_ms)
    &&& costs.complete()
}

/// The key of a paid provider, if the provider is admitted.
pub fn gated_api_provider(
    settings: &ProviderSettings,
    costs: &CostSettings,
    provider: &str,
    model: &str,
    now_ms: u64,
) -> (r: Option<String>)
    ensures
        match r {
            Some(key) => is_admitted(*settings, *costs, provider@, model@, now_ms) && (
            settings.api_key matches Some(held) && key@ == held@),
            None => !is_admitted(*settings, *costs, provider@, model@, now_ms),
        },
{
    let key = match &settings.api_key {
        Some(key) => key,
        None => return None,
    };
    match &settings.gate {
        Some(word) => {
            if !text::text_eq(word.as_str(), "accepted") {
                return None;
            }
        },
        None => return None,
    }
    if !valid_price_catalog(settings.catalog.as_ref(), provider, model, now_ms) {
        return None;
    }
    if global_cost_limits(costs).is_none() {
        return None;
    }
    Some(key.clone())
}

/// Reserved cost of one paid provider in micro-USD.
pub const PROVIDER_RESERVATION: u64 = 250000;

/// What is done about the paid budget of a run.
pub enum BudgetPlan {
    /// The run is admitted without a reservation.
    Admit,
    /// The run is refused.
    Refuse,
    /// The run is admitted if this amount can be reserved under all of these scopes.
    Reserve(u64, Vec<(String, u64)>),
}

/// What is done about the paid budget of a run.
pub enum BudgetView {
    /// The run is admitted without a reservation.
    Admit,
    /// The run is refused.
    Refuse,
    /// The run is admitted if this amount can be reserved under all of these scopes.
    Reserve(u64, Seq<(Seq<char>, u64)>),
}

/// Scopes and their ceilings.
pub open spec fn scope_views(scopes: Seq<(String, u64)>) -> Seq<(Seq<char>, u64)> {
    scopes.map_values(|scope: (String, u64)| (scope.0@, scope.1))
}

impl View for BudgetPlan {
    type V = BudgetView;

    open spec fn view(&self) -> BudgetView {
        match *self {
            BudgetPlan::Admit => BudgetView::Admit,
            BudgetPlan::Refuse => BudgetView::Refuse,
            BudgetPlan::Reserve(amount, scopes) => BudgetView::Reserve(amount, scope_views(scopes@)),
        }
    }
}

/// The cost of a run, not more than 64 bits hold.
pub open spec fn reserved_amount(paid_provider_count: u64) -> u64 {
    if PROVIDER_RESERVATION * paid_provider_count <= u64::MAX {
        (PROVIDER_RESERVATION * paid_provider_count) as u64
    } else {
        u64::MAX
    }
}

/// The paid budget of a run. Without cost ceilings only a run without paid providers is
/// admitted; with them, a run needs a ceiling of its own.
pub open spec fn budget_plan(
    limits: Option<CostLimits>,
    run_id: Seq<char>,
    incident_ceiling: Option<u64>,
    paid_provider_count: u64,
) -> BudgetView {
    match limits {
        None => if paid_provider_count == 0 {
            BudgetView::Admit
        } else {
            BudgetView::Refuse
        },
        Some(limits) => match incident_ceiling {
            None => BudgetView::Refuse,
            Some(incident_ceiling) => if paid_provider_count == 0 {
                BudgetView::Admit
            } else {
                BudgetView::Reserve(
                    reserved_amount(paid_provider_count),
                    seq![
                        ("incident:"@ + run_id, incident_ceiling),
                        ("day:"@ + limits.day@, limits.daily),
                        ("month:"@ + limits.month@, limits.monthly),
                    ],
                )
            },
        },
    }
}

/// Decides the paid budget of a run.
pub fn reserve_paid_budget(
    limits: Option<&CostLimits>,
    run_id: &str,
    incident_ceiling: Option<u64>,
    paid_provider_count: u64,
) -> (r: BudgetPlan)
    ensures
        r@ == budget_plan(
            match limits {
                Some(limits) => Some(*limits),
                None => None,
            },
            run_id@,
            incident_ceiling,
            paid_provider_count,
        ),
{
    let limits = match limits {
        Some(limits) => limits,
        None => {
            if paid_provider_count == 0 {
                return BudgetPlan::Admit;
            }
            return BudgetPlan::Refuse;
        },
    };
    let incident_ceiling: u64 = match incident_ceiling {
        Some(incident_ceiling) => incident_ceiling,
        None => return BudgetPlan::Refuse,
    };
    if paid_provider_count == 0 {
        return BudgetPlan::Admit;
    }
    let wide: u128 = PROVIDER_RESERVATION as u128 * paid_provider_count as u128;
    let amount: u64 = if wide <= u64::MAX as u128 {
        wide as u64
    } else {
        u64::MAX
    };
    let scopes = vec![
        (text::prefixed("incident:", run_id), incident_ceiling),
        (text::prefixed("day:", limits.day.as_str()), limits.daily),
        (text::prefixed("month:", limits.month.as_str()), limits.monthly),
    ];
    assert(scope_views(scopes@) =~= seq![
        ("incident:"@ + run_id@, incident_ceiling),
        ("day:"@ + limits.day@, limits.daily),
        ("month:"@ + limits.month@, limits.monthly),
    ]);
    BudgetPlan::Reserve(amount, scopes)
}

/// A run with paid providers is never admitted without a reservation, and every reservation is
/// bounded by the incident, the day and the month.
pub proof fn paid_runs_are_reserved_under_every_scope(
    limits: Option<CostLimits>,
    run_id: Seq<char>,
    incident_ceiling: Option<u64>,
    paid_provider_count: u64,
)
    requires
        paid_provider_count > 0,
    ensures
        match budget_plan(limits, run_id, incident_ceiling, paid_provider_count) {
            BudgetView::Admit => false,
            BudgetView::Refuse => limits is None || incident_ceiling is None,
            BudgetView::Reserve(amount, scopes) => {
                &&& amount >= PROVIDER_RESERVATION
                &&& limits matches Some(limits)
                &&& incident_ceiling matches Some(ceiling)
                &&& scopes == seq![
                    ("incident:"@ + run_id, ceiling),
                    ("day:"@ + limits.day@, limits.daily),
                    ("month:"@ + limits.month@, limits.monthly),
                ]
            },
        },
{
    assert(PROVIDER_RESERVATION * paid_provider_count >= PROVIDER_RESERVATION)
        by (nonlinear_arith)
        requires
            paid_provider_count > 0,
    ;
}

/// The address that is listened on, where none is set.
pub const DEFAULT_LISTEN_ADDRESS: &'static str = "127.0.0.1:8080";

/// The address to listen on, as text.
pub fn listener_address(setting: Option<String>) -> (r: String)
    ensures
        r@ == (match setting {
            Some(address) => address@,
            None => "127.0.0.1:8080"@,
        }),
{
    match setting {
        Some(address) => address,
        None => DEFAULT_LISTEN_ADDRESS.to_owned(),
    }
}

/// Identity of a run: that of its incident and the time.
pub fn run_id(incident_id: &str, now_ms: u64) -> (r: String)
    ensures
        r@ == incident_id@ + "-"@ + number::decimal(now_ms as nat),
{
    let digits = number::decimal_text(now_ms);
    text::enclosed(incident_id, "-", digits.as_str())
}

/// Identity of the delivery of a report.
pub fn delivery_id(incident_id: &str) -> (r: String)
    ensures
        r@ == incident_id@ + ":report"@,
{
    let mut out = incident_id.to_owned();
    out.append(":report");
    out
}

/// How a service ended.
#[derive(Debug, Clone, Copy, PartialEq, Eq, Structural)]
pub enum ServeEnd {
    /// The intake ended: whether with an error.
    Intake(bool),
    /// The worker ended by itself.
    WorkerExited,
    /// The worker told of a failure.
    WorkerSignalled,
}

/// The outcome of a service: only an intake that ended without an error ends it well.
pub fn serve_outcome(end: ServeEnd) -> (r: Result<(), ApplicationError>)
    ensures
        r == (match end {
            ServeEnd::Intake(failed) => if failed {
                Err(ApplicationError::Intake)
            } else {
                Ok(())
            },
            ServeEnd::WorkerExited => Err(ApplicationError::WorkerFailed),
            ServeEnd::WorkerSignalled => Err(ApplicationError::WorkerFailed),
        }),
{
    match end {
        ServeEnd::Intake(failed) => {
            if failed {
                Err(ApplicationError::Intake)
            } else {
                Ok(())
            }
        },
        ServeEnd::WorkerExited => Err(ApplicationError::WorkerFailed),
        ServeEnd::WorkerSignalled => Err(ApplicationError::WorkerFailed),
    }
}

/// A price catalog counts exactly where it prices the named model of the named provider, under a
/// version, above zero, and is not over.
pub proof fn catalogs_price_one_model_for_a_time(
    catalog: PriceCatalog,
    provider: Seq<char>,
    model: Seq<char>,
    now_ms: u64,
)
    ensures
        catalog.prices(provider, model, now_ms) <==> catalog.provider@ == provider && catalog.model@
            == model && (exists|i: int| 0 <= i < model.len() && !trim::is_space(#[trigger] model[i]))
            && (exists|i: int|
            0 <= i < catalog.version@.len() && !trim::is_space(#[trigger] catalog.version@[i]))
            && now_ms < catalog.valid_until_ms && catalog.micro_usd_per_1k_tokens >= 1,
{
    let version = catalog.version@;
    assert(trim::is_blank(version) == !exists|i: int|
        0 <= i < version.len() && !trim::is_space(#[trigger] version[i]));
    assert(trim::is_blank(model) == !exists|i: int|
        0 <= i < model.len() && !trim::is_space(#[trigger] model[i]));
}

/// A paid provider is admitted exactly with its key, an accepted gate, a catalog that prices it and
/// both cost ceilings with their periods.
pub proof fn paid_providers_need_key_gate_catalog_and_ceilings(
    settings: ProviderSettings,
    costs: CostSettings,
    provider: Seq<char>,
    model: Seq<char>,
    now_ms: u64,
)
    ensures
        is_admitted(settings, costs, provider, model, now_ms) <==> settings.api_key is Some
            && settings.gate is Some && settings.gate->0@ == "accepted"@ && settings.catalog is Some
            && (settings.catalog->0).prices(provider, model, now_ms) && ceiling(costs.daily) is Some
            && ceiling(costs.monthly) is Some && period(costs.day) is Some && period(costs.month)
            is Some,
        costs.daily is None ==> ceiling(costs.daily) is None,
        costs.daily matches Some(digits) ==> (ceiling(costs.daily) is Some <==> (number::parsed(
            digits@,
            u64::MAX as nat,
        ) matches Some(n) && n >= 1)),
        ceiling(costs.daily) matches Some(n) ==> number::parsed(
            (costs.daily->0)@,
            u64::MAX as nat,
        ) == Some(n),
        costs.day matches Some(name) ==> (period(costs.day) == Some(name@) <==> exists|i: int|
            0 <= i < name@.len() && !trim::is_space(#[trigger] name@[i])),
{
    if costs.day is Some {
        let name = (costs.day->0)@;
        assert(trim::is_blank(name) == !exists|i: int|
            0 <= i < name.len() && !trim::is_space(#[trigger] name[i]));
    }
}

/// What a run reserves: nothing without paid providers, a quarter of a dollar for each of them, under
/// the incident, the day and the month, and never without all three ceilings.
pub proof fn paid_runs_reserve_a_quarter_for_each_provider(
    limits: Option<CostLimits>,
    run_id: Seq<char>,
    incident_ceiling: Option<u64>,
    count: u64,
)
    ensures
        ({
            let plan = budget_plan(limits, run_id, incident_ceiling, count);
            let limited = limits is Some && incident_ceiling is Some;
            &&& plan is Admit <==> count == 0 && (limits is None || incident_ceiling is Some)
            &&& plan is Reserve <==> count > 0 && limited
            &&& plan is Refuse <==> !(plan is Admit) && !(plan is Reserve)
            &&& plan matches BudgetView::Reserve(amount, scopes) ==> {
                &&& count <= 73786976294838 ==> amount == 250000 * count
                &&& amount >= 250000
                &&& scopes.len() == 3
                &&& scopes[0] == ("incident:"@ + run_id, incident_ceiling->0)
                &&& scopes[1] == ("day:"@ + (limits->0).day@, (limits->0).daily)
                &&& scopes[2] == ("month:"@ + (limits->0).month@, (limits->0).monthly)
            }
        }),
{
    if count > 0 {
        assert(PROVIDER_RESERVATION * count >= 250000) by (nonlinear_arith)
            requires
                PROVIDER_RESERVATION == 250000,
                count > 0,
        ;
    }
}

} // verus!
