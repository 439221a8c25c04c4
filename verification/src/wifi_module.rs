//! Bringing up the Wi-Fi radio, as a client of a network or as an access
//! point. Each step is done by the radio driver; this module decides, from
//! the outcome of each step, what comes next and which error code a failure
//! gives.
use vstd::prelude::*;

verus! {

/// The driver could not be configured.
pub const WIFI_ERR_CONFIGURATION: i32 = -1;

/// The driver could not be started.
pub const WIFI_ERR_START: i32 = -2;

/// The driver could not be created.
pub const WIFI_ERR_CREATE: i32 = -3;

/// The role of the radio.
#[derive(Debug, Clone, Copy, PartialEq, Eq)]
pub enum WiFiRole {
    /// It joins a network, and connects once started.
    Client,
    /// It offers a network.
    AccessPoint,
}

/// A step of bringing up the radio.
#[derive(Debug, Clone, Copy, PartialEq, Eq)]
pub enum WiFiStep {
    Create,
    Configure,
    Start,
    Connect,
}

/// What to do after a step.
#[derive(Debug, Clone, Copy, PartialEq, Eq)]
pub enum WiFiAction {
    /// Perform this step next.
    Perform(WiFiStep),
    /// The radio is up.
    Done,
    /// Give up with this error code.
    Fail(i32),
}

/// The step that starts the bring-up.
pub fn first_step() -> (r: WiFiStep)
    ensures
        r == WiFiStep::Create,
{
    WiFiStep::Create
}

/// What follows `step` in the bring-up for `role`, given whether it succeeded.
pub open spec fn spec_next_action(role: WiFiRole, step: WiFiStep, succeeded: bool) -> WiFiAction {
    match step {
        WiFiStep::Create => if succeeded { WiFiAction::Perform(WiFiStep::Configure) } else { WiFiAction::Fail(WIFI_ERR_CREATE) },
        WiFiStep::Configure => if succeeded { WiFiAction::Perform(WiFiStep::Start) } else { WiFiAction::Fail(WIFI_ERR_CONFIGURATION) },
        WiFiStep::Start => if !succeeded {
            WiFiAction::Fail(WIFI_ERR_START)
        } else if role == WiFiRole::Client {
            WiFiAction::Perform(WiFiStep::Connect)
        } else {
            WiFiAction::Done
        },
        WiFiStep::Connect => WiFiAction::Done,
    }
}

/// What follows `step` in the bring-up for `role` (see `spec_next_action`).
/// The outcome of connecting does not matter: the client is up once it has
/// asked to connect.
pub fn next_action(role: WiFiRole, step: WiFiStep, succeeded: bool) -> (r: WiFiAction)
    ensures
        r == spec_next_action(role, step, succeeded),
        step == WiFiStep::Create ==> r == if succeeded { WiFiAction::Perform(WiFiStep::Configure) } else { WiFiAction::Fail(-3i32) },
        step == WiFiStep::Configure ==> r == if succeeded { WiFiAction::Perform(WiFiStep::Start) } else { WiFiAction::Fail(-1i32) },
        step == WiFiStep::Start && !succeeded ==> r == WiFiAction::Fail(-2i32),
        step == WiFiStep::Start && succeeded && role == WiFiRole::Client ==> r == WiFiAction::Perform(WiFiStep::Connect),
        step == WiFiStep::Start && succeeded && role == WiFiRole::AccessPoint ==> r == WiFiAction::Done,
        step == WiFiStep::Connect ==> r == WiFiAction::Done,
{
    match step {
        WiFiStep::Create => if succeeded { WiFiAction::Perform(WiFiStep::Configure) } else { WiFiAction::Fail(WIFI_ERR_CREATE) },
        WiFiStep::Configure => if succeeded { WiFiAction::Perform(WiFiStep::Start) } else { WiFiAction::Fail(WIFI_ERR_CONFIGURATION) },
        WiFiStep::Start => {
            if !succeeded {
                WiFiAction::Fail(WIFI_ERR_START)
            } else {
                match role {
                    WiFiRole::Client => WiFiAction::Perform(WiFiStep::Connect),
                    WiFiRole::AccessPoint => WiFiAction::Done,
                }
            }
        },
        WiFiStep::Connect => WiFiAction::Done,
    }
}

/// The outcome of a bring-up for `role` in which the driver's steps report
/// `outcomes` in turn: it starts at `first_step` and follows `next_action`.
pub open spec fn bring_up(role: WiFiRole, step: WiFiStep, outcomes: Seq<bool>) -> Option<WiFiAction>
    decreases outcomes.len(),
{
    if outcomes.len() == 0 {
        None
    } else {
        match spec_next_action(role, step, outcomes[0]) {
            WiFiAction::Perform(next) => bring_up(role, next, outcomes.drop_first()),
            other => Some(other),
        }
    }
}

/// A bring-up ends up with the radio up exactly when creating, configuring
/// and starting succeed, and fails with the code of the first step that
/// failed. A client asks to connect after starting, whatever that gives.
pub proof fn lemma_bring_up_outcomes(role: WiFiRole, c: bool, f: bool, s: bool, k: bool)
    ensures
        !c ==> bring_up(role, WiFiStep::Create, seq![c, f, s, k]) == Some(WiFiAction::Fail(WIFI_ERR_CREATE)),
        c && !f ==> bring_up(role, WiFiStep::Create, seq![c, f, s, k]) == Some(WiFiAction::Fail(WIFI_ERR_CONFIGURATION)),
        c && f && !s ==> bring_up(role, WiFiStep::Create, seq![c, f, s, k]) == Some(WiFiAction::Fail(WIFI_ERR_START)),
        c && f && s ==> bring_up(role, WiFiStep::Create, seq![c, f, s, k]) == Some(WiFiAction::Done),
        role == WiFiRole::AccessPoint && c && f && s ==> bring_up(role, WiFiStep::Create, seq![c, f, s]) == Some(WiFiAction::Done),
{
    reveal_with_fuel(bring_up, 5);
    let o = seq![c, f, s, k];
    assert(o.drop_first() =~= seq![f, s, k]);
    assert(seq![f, s, k].drop_first() =~= seq![s, k]);
    assert(seq![s, k].drop_first() =~= seq![k]);
    assert(seq![k].drop_first() =~= Seq::<bool>::empty());
    assert(seq![c, f, s].drop_first() =~= seq![f, s]);
    assert(seq![f, s].drop_first() =~= seq![s]);
}

} // verus!
