//! Talking to ModemManager: what its answers mean and what is tried again.
use vstd::prelude::*;

use crate::call_forward::{
    law_forwarding_has_a_number, parse_ussd_reply, ussd_disable, ussd_enable, ussd_query,
    ussd_reply, CallForwardState, CallForwardStateView,
};
use crate::db::clone_opt;
use crate::modem::{
    best_radio, mm_states, radio_from_access_tech, sim_of, sim_status, IncomingSms,
    IncomingSmsView, ModemError, ModemErrorView, ModemLive, ModemLiveView, ModemState,
    Registration,
};
use crate::normalize::{
    complaint, normalize_e164, normalized, result_view, NormalizeError, NormalizeErrorView,
};
use crate::rows::{opt_view, res_plain, res_view};
use crate::text::{contains, digits_of, holds, opt_eq, str_eq};

verus! {

// ---------------------------------------------------------------------------
// Messages
// ---------------------------------------------------------------------------

/// PDU type 2 is submit (outbound). Deliver is 1.
pub fn sms_is_inbound(pdu_type: u32) -> (r: bool)
    ensures
        r == (pdu_type != 2),
{
    pdu_type != 2
}

/// Deliver is received; submit is not; anything else with a number counts as
/// received.
pub open spec fn received(pdu_type: u32, number: Seq<char>) -> bool {
    pdu_type == 1 || (pdu_type != 2 && number.len() > 0)
}

/// A message as its properties tell it.
pub fn loaded_sms(
    path: String,
    number: String,
    text: String,
    pdu_type: u32,
    timestamp: Option<String>,
) -> (r: IncomingSms)
    ensures
        r@ == (IncomingSmsView {
            path: path@,
            e164: number@,
            text: text@,
            inbound: received(pdu_type, number@),
            timestamp: match opt_view(timestamp) {
                Some(ts) => ts,
                None => Seq::empty(),
            },
        }),
{
    let inbound = if pdu_type == 1 {
        true
    } else if !sms_is_inbound(pdu_type) {
        false
    } else {
        !number.as_str().is_empty()
    };
    let timestamp = match timestamp {
        Some(ts) => ts,
        None => {
            let none = String::new();
            assert(none@ =~= Seq::empty());
            none
        },
    };
    IncomingSms { path, e164: number, text, inbound, timestamp }
}

/// Whether the text of a received message is there.
pub fn sms_text_ready(text: &str) -> (r: bool)
    ensures
        r == (text@.len() > 0),
{
    !text.is_empty()
}

/// How often a message is read while its text is not there.
pub const LOAD_ATTEMPTS: u32 = 20;

/// Reading a message that may not be whole yet.
#[derive(Debug)]
pub struct LoadFlow {
    /// How often it was read already.
    pub attempts: u32,
}

/// What comes of reading a message once.
#[derive(Debug)]
pub enum LoadStep {
    /// Wait a little and read it again.
    Again(LoadFlow),
    End(Result<IncomingSms, ModemError>),
}

pub enum LoadStepView {
    Again(nat),
    End(Result<IncomingSmsView, ModemErrorView>),
}

impl View for LoadStep {
    type V = LoadStepView;

    open spec fn view(&self) -> LoadStepView {
        match self {
            LoadStep::Again(flow) => LoadStepView::Again(flow.attempts as nat),
            LoadStep::End(r) => LoadStepView::End(res_view(*r)),
        }
    }
}

/// A message that needs no more waiting.
pub open spec fn whole(sms: IncomingSmsView) -> bool {
    !sms.inbound || sms.text.len() > 0
}

/// How reading goes on. A message that is not whole, or cannot be read, is read
/// again; an error that is left when the attempts are used up is the end, and a
/// message without a text is then read once more and taken as it is.
pub open spec fn load_next(attempts: nat, r: Result<IncomingSmsView, ModemErrorView>) -> LoadStepView {
    if attempts >= LOAD_ATTEMPTS {
        LoadStepView::End(r)
    } else {
        match r {
            Ok(sms) => if whole(sms) {
                LoadStepView::End(r)
            } else {
                LoadStepView::Again(attempts + 1)
            },
            Err(e) => if attempts + 1 < LOAD_ATTEMPTS {
                LoadStepView::Again(attempts + 1)
            } else {
                LoadStepView::End(r)
            },
        }
    }
}

/// Begins to read a message.
pub fn load_incoming_sms_retry() -> (r: LoadFlow)
    ensures
        r.attempts == 0,
{
    LoadFlow { attempts: 0 }
}

impl LoadFlow {
    /// Goes on with what reading gave.
    pub fn next(self, result: Result<IncomingSms, ModemError>) -> (r: LoadStep)
        ensures
            r@ == load_next(self.attempts as nat, res_view(result)),
    {
        if self.attempts >= LOAD_ATTEMPTS {
            return LoadStep::End(result);
        }
        let attempts: u32 = self.attempts + 1;
        match result {
            Ok(sms) => {
                if !sms.inbound || sms_text_ready(sms.text.as_str()) {
                    LoadStep::End(Ok(sms))
                } else {
                    LoadStep::Again(LoadFlow { attempts })
                }
            },
            Err(e) => {
                if attempts < LOAD_ATTEMPTS {
                    LoadStep::Again(LoadFlow { attempts })
                } else {
                    LoadStep::End(Err(e))
                }
            },
        }
    }
}

/// Reading ends: every repetition brings the end nearer.
pub proof fn law_loading_ends(attempts: nat, r: Result<IncomingSmsView, ModemErrorView>)
    ensures
        load_next(attempts, r) matches LoadStepView::Again(n) ==> n == attempts + 1 && n
            <= LOAD_ATTEMPTS,
        load_next(LOAD_ATTEMPTS as nat, r) == LoadStepView::End(r),
{
}

// ---------------------------------------------------------------------------
// Errors of the bus
// ---------------------------------------------------------------------------

/// An error of the bus, as far as it matters.
#[derive(Debug)]
pub enum BusError {
    /// One of the standard errors; whether it says that the object is unknown.
    Standard { unknown_object: bool },
    /// The error of a method, by its name.
    Method { name: String },
    /// Any other, in words.
    Other { text: String },
}

pub open spec fn gone_name(name: Seq<char>) -> bool {
    name == "org.freedesktop.DBus.Error.UnknownObject"@ || name
        == "org.freedesktop.ModemManager1.Error.Core.NotFound"@
}

pub fn delete_already_gone_name(name: &str) -> (r: bool)
    ensures
        r == gone_name(name@),
{
    str_eq(name, "org.freedesktop.DBus.Error.UnknownObject") || str_eq(
        name,
        "org.freedesktop.ModemManager1.Error.Core.NotFound",
    )
}

/// What was to be deleted is not there any more.
pub open spec fn already_gone(e: BusError) -> bool {
    match e {
        BusError::Standard { unknown_object } => unknown_object,
        BusError::Method { name } => gone_name(name@),
        BusError::Other { text } => holds(text@, "UnknownObject"@) || holds(
            text@,
            "org.freedesktop.ModemManager1.Error.Core.NotFound"@,
        ) || holds(text@, "No SMS found"@),
    }
}

pub fn delete_already_gone(err: &BusError) -> (r: bool)
    ensures
        r == already_gone(*err),
{
    match err {
        BusError::Standard { unknown_object } => *unknown_object,
        BusError::Method { name } => delete_already_gone_name(name.as_str()),
        BusError::Other { text } => contains(text.as_str(), "UnknownObject") || contains(
            text.as_str(),
            "org.freedesktop.ModemManager1.Error.Core.NotFound",
        ) || contains(text.as_str(), "No SMS found"),
    }
}

/// How deleting ends: what is gone already counts as deleted.
pub fn delete_outcome(result: Result<(), (BusError, String)>) -> (r: Result<(), ModemError>)
    ensures
        res_plain(r) == match result {
            Ok(_) => Ok::<(), ModemErrorView>(()),
            Err((e, message)) => if already_gone(e) {
                Ok(())
            } else {
                Err(ModemErrorView::Failed(message@))
            },
        },
{
    match result {
        Ok(_) => Ok(()),
        Err((e, message)) => if delete_already_gone(&e) {
            Ok(())
        } else {
            Err(ModemError::Failed(message))
        },
    }
}

// ---------------------------------------------------------------------------
// The path of the modem
// ---------------------------------------------------------------------------

pub open spec fn stale(e: ModemErrorView) -> bool {
    match e {
        ModemErrorView::NotFound(_) => true,
        ModemErrorView::Failed(s) => holds(s, "UnknownObject"@) || holds(
            s,
            "org.freedesktop.ModemManager1.Error.Core.NotFound"@,
        ),
    }
}

/// Whether an error says that the modem is no longer under its path.
pub fn path_error_is_stale(err: &ModemError) -> (r: bool)
    ensures
        r == stale(err@),
{
    match err {
        ModemError::NotFound(_) => true,
        ModemError::Failed(s) => contains(s.as_str(), "UnknownObject") || contains(
            s.as_str(),
            "org.freedesktop.ModemManager1.Error.Core.NotFound",
        ),
    }
}

/// The path under which the modem was found last.
#[derive(Debug)]
pub struct PathCache {
    pub path: Option<String>,
}

impl View for PathCache {
    type V = Option<Seq<char>>;

    open spec fn view(&self) -> Option<Seq<char>> {
        opt_view(self.path)
    }
}

impl PathCache {
    pub fn new() -> (r: Self)
        ensures
            r@ == None::<Seq<char>>,
    {
        PathCache { path: None }
    }

    pub fn hit(&self) -> (r: Option<String>)
        ensures
            opt_view(r) == self@,
    {
        clone_opt(&self.path)
    }

    pub fn store(&mut self, path: String)
        ensures
            final(self)@ == Some(path@),
    {
        self.path = Some(path);
    }

    pub fn invalidate(&mut self)
        ensures
            final(self)@ == None::<Seq<char>>,
    {
        self.path = None;
    }

    /// Forgets the path if the error says that the modem is no longer there.
    pub fn invalidate_if_stale(&mut self, err: &ModemError) -> (r: bool)
        ensures
            r == stale(err@),
            final(self)@ == if r {
                None
            } else {
                old(self)@
            },
    {
        if path_error_is_stale(err) {
            self.invalidate();
            true
        } else {
            false
        }
    }
}

/// An object of ModemManager: its path and the device it stands for.
pub open spec fn modem_path(objects: Seq<(Seq<char>, Option<Seq<char>>)>, uid: Seq<char>) -> Option<
    Seq<char>,
>
    decreases objects.len(),
{
    if objects.len() == 0 {
        None
    } else if objects[0].1 == Some(uid) {
        Some(objects[0].0)
    } else {
        modem_path(objects.skip(1), uid)
    }
}

pub open spec fn object_views(s: Seq<(String, Option<String>)>) -> Seq<
    (Seq<char>, Option<Seq<char>>),
> {
    s.map_values(|o: (String, Option<String>)| (o.0@, opt_view(o.1)))
}

/// The path of the first object that stands for the device.
pub fn lookup_path(objects: &Vec<(String, Option<String>)>, uid: &str) -> (r: Result<
    String,
    ModemError,
>)
    ensures
        res_view(r) == match modem_path(object_views(objects@), uid@) {
            Some(path) => Ok::<Seq<char>, ModemErrorView>(path),
            None => Err(ModemErrorView::NotFound(uid@)),
        },
{
    let ghost all = object_views(objects@);
    let mut i: usize = 0;
    assert(all.skip(0) =~= all);
    while i < objects.len()
        invariant
            i <= objects@.len(),
            all == object_views(objects@),
            modem_path(all, uid@) == modem_path(all.skip(i as int), uid@),
        decreases objects@.len() - i,
    {
        assert(all.skip(i as int)[0] == (objects@[i as int].0@, opt_view(objects@[i as int].1)));
        assert(all.skip(i as int).skip(1) =~= all.skip(i + 1));
        if opt_eq(&objects[i].1, uid) {
            return Ok(objects[i].0.clone());
        }
        i = i + 1;
    }
    Err(ModemError::NotFound(uid.to_owned()))
}

/// What an operation on the modem is waiting for. It is tried a second time if
/// the modem had moved.
#[derive(Debug, Clone, Copy, PartialEq, Eq, Structural)]
pub enum PathAt {
    Looking { again: bool },
    Running { again: bool },
}

/// What an operation on the modem does next.
#[derive(Debug)]
pub enum PathStep {
    /// Look where the modem is.
    Lookup(PathAt),
    /// Run the operation at this path.
    Run(String, PathAt),
    /// Stop with this error.
    Fail(ModemError),
}

pub enum PathStepView {
    Lookup(PathAt),
    Run(Seq<char>, PathAt),
    Fail(ModemErrorView),
}

impl View for PathStep {
    type V = PathStepView;

    open spec fn view(&self) -> PathStepView {
        match self {
            PathStep::Lookup(at) => PathStepView::Lookup(*at),
            PathStep::Run(path, at) => PathStepView::Run(path@, *at),
            PathStep::Fail(e) => PathStepView::Fail(e@),
        }
    }
}

/// A known path is used without looking.
pub open spec fn path_resolved(cache: Option<Seq<char>>, again: bool) -> PathStepView {
    match cache {
        Some(path) => PathStepView::Run(path, PathAt::Running { again }),
        None => PathStepView::Lookup(PathAt::Looking { again }),
    }
}

/// Begins an operation on the modem.
pub fn with_modem_path(cache: &PathCache) -> (r: PathStep)
    ensures
        r@ == path_resolved(cache@, false),
{
    resolve_path(cache, false)
}

/// Uses the known path, or looks where the modem is.
pub fn resolve_path(cache: &PathCache, again: bool) -> (r: PathStep)
    ensures
        r@ == path_resolved(cache@, again),
{
    match cache.hit() {
        Some(path) => PathStep::Run(path, PathAt::Running { again }),
        None => PathStep::Lookup(PathAt::Looking { again }),
    }
}

/// Goes on with where the modem was found: the path is kept, and forgotten when
/// the modem was not found.
pub fn path_found(cache: &mut PathCache, again: bool, found: Result<String, ModemError>) -> (r:
    PathStep)
    ensures
        r@ == match res_view(found) {
            Ok(path) => PathStepView::Run(path, PathAt::Running { again }),
            Err(e) => PathStepView::Fail(e),
        },
        final(cache)@ == match res_view(found) {
            Ok(path) => Some(path),
            Err(_) => None,
        },
{
    match found {
        Ok(path) => {
            cache.store(path.clone());
            PathStep::Run(path, PathAt::Running { again })
        },
        Err(e) => {
            cache.invalidate();
            PathStep::Fail(e)
        },
    }
}

/// How an operation that failed goes on: once more, from looking where the
/// modem is, if it was the first time and the modem had moved.
pub open spec fn after_failure(again: bool, e: ModemErrorView) -> PathStepView {
    if !again && stale(e) {
        PathStepView::Lookup(PathAt::Looking { again: true })
    } else {
        PathStepView::Fail(e)
    }
}

/// Goes on after an operation that failed.
pub fn path_failed(cache: &mut PathCache, again: bool, err: ModemError) -> (r: PathStep)
    ensures
        r@ == after_failure(again, err@),
        final(cache)@ == if !again && stale(err@) {
            None
        } else {
            old(cache)@
        },
{
    if again {
        return PathStep::Fail(err);
    }
    if cache.invalidate_if_stale(&err) {
        resolve_path(cache, true)
    } else {
        PathStep::Fail(err)
    }
}

/// An operation runs at most twice: the second failure is the end.
pub proof fn law_second_failure_ends(e: ModemErrorView)
    ensures
        after_failure(true, e) == PathStepView::Fail(e),
{
}

// ---------------------------------------------------------------------------
// The state of the modem
// ---------------------------------------------------------------------------

/// What the properties of the modem tell, as far as they could be read.
#[derive(Debug)]
pub struct ModemProperties {
    pub state: i32,
    pub failed_reason: Option<u32>,
    pub signal_percent: Option<u32>,
    pub access_technologies: Option<u32>,
    pub unlock_required: Option<u32>,
    pub operator: Option<String>,
    pub registration: Option<u32>,
    pub rssi_dbm: Option<i32>,
}

pub open spec fn state_of_mm(v: i32) -> ModemState {
    if -1 <= v <= 11 {
        mm_states()[v + 1]
    } else {
        ModemState::Unknown
    }
}

pub open spec fn or_zero(v: Option<u32>) -> u32 {
    match v {
        Some(n) => n,
        None => 0,
    }
}

/// The state of the modem that the properties tell.
pub open spec fn live_of(p: ModemProperties) -> ModemLiveView {
    let state = state_of_mm(p.state);
    ModemLiveView {
        state,
        operator: match opt_view(p.operator) {
            Some(name) => if name.len() > 0 {
                Some(name)
            } else {
                None
            },
            None => None,
        },
        registration: match p.registration {
            Some(v) => if v == 1 || v == 6 {
                Some(Registration::Home)
            } else if v == 5 || v == 7 {
                Some(Registration::Roaming)
            } else {
                None
            },
            None => None,
        },
        signal_percent: p.signal_percent,
        rssi_dbm: p.rssi_dbm,
        access_tech: match p.access_technologies {
            Some(bits) => best_radio(bits),
            None => None,
        },
        sim: sim_of(state, or_zero(p.failed_reason), or_zero(p.unlock_required)),
    }
}

/// The state of the modem that the properties tell.
pub fn modem_live(p: ModemProperties) -> (r: ModemLive)
    ensures
        r@ == live_of(p),
{
    let state = ModemState::from_mm(p.state);
    let failed_reason: u32 = match p.failed_reason {
        Some(n) => n,
        None => 0,
    };
    let unlock: u32 = match p.unlock_required {
        Some(n) => n,
        None => 0,
    };
    let operator = match p.operator {
        Some(name) => if name.as_str().is_empty() {
            None
        } else {
            Some(name)
        },
        None => None,
    };
    let registration = match p.registration {
        Some(v) => Registration::from_mm(v),
        None => None,
    };
    let access_tech = match p.access_technologies {
        Some(bits) => radio_from_access_tech(bits),
        None => None,
    };
    ModemLive {
        state,
        operator,
        registration,
        signal_percent: p.signal_percent,
        rssi_dbm: p.rssi_dbm,
        access_tech,
        sim: sim_status(state, failed_reason, unlock),
    }
}

/// A strength of LTE reference signals in dBm, and whether it is a real one:
/// zero stands for none.
#[derive(Debug, Clone, Copy, PartialEq, Eq, Structural)]
pub struct Rsrp {
    pub dbm: i32,
    pub real: bool,
}

/// The strength to show, in dBm: of LTE the reference signals before the whole
/// signal, and LTE before the older radios.
pub fn rssi_from_signal(
    lte_rsrp: Option<Rsrp>,
    lte_rssi: Option<i32>,
    umts_rssi: Option<i32>,
    gsm_rssi: Option<i32>,
) -> (r: Option<i32>)
    ensures
        r == if lte_rsrp is Some && lte_rsrp->0.real {
            Some(lte_rsrp->0.dbm)
        } else if lte_rssi is Some {
            lte_rssi
        } else if umts_rssi is Some {
            umts_rssi
        } else {
            gsm_rssi
        },
{
    if let Some(rsrp) = lte_rsrp {
        if rsrp.real {
            return Some(rsrp.dbm);
        }
    }
    if lte_rssi.is_some() {
        lte_rssi
    } else if umts_rssi.is_some() {
        umts_rssi
    } else {
        gsm_rssi
    }
}

// ---------------------------------------------------------------------------
// Forwarding
// ---------------------------------------------------------------------------

/// That the network took a code is all that is asked of its reply.
pub fn apply_ussd_reply(reply: Result<String, ModemError>) -> (r: Result<(), ModemError>)
    ensures
        res_plain(r) == match res_view(reply) {
            Ok(_) => Ok::<(), ModemErrorView>(()),
            Err(e) => Err(e),
        },
{
    match reply {
        Ok(_) => Ok(()),
        Err(e) => Err(e),
    }
}

/// How far a conversation with the network about forwarding is.
#[derive(Debug)]
pub enum ForwardFlow {
    /// The state is being asked for.
    Asking,
    /// A change is being made.
    Applying { wanted: CallForwardState },
    /// The state after the change is being asked for.
    Confirming { wanted: CallForwardState },
}

pub enum ForwardFlowView {
    Asking,
    Applying { wanted: CallForwardStateView },
    Confirming { wanted: CallForwardStateView },
}

impl View for ForwardFlow {
    type V = ForwardFlowView;

    open spec fn view(&self) -> ForwardFlowView {
        match self {
            ForwardFlow::Asking => ForwardFlowView::Asking,
            ForwardFlow::Applying { wanted } => ForwardFlowView::Applying { wanted: wanted@ },
            ForwardFlow::Confirming { wanted } => ForwardFlowView::Confirming { wanted: wanted@ },
        }
    }
}

/// One step: dial a code, or end.
#[derive(Debug)]
pub enum ForwardStep {
    Dial(String, ForwardFlow),
    End(Result<CallForwardState, ModemError>),
}

pub enum ForwardStepView {
    Dial(Seq<char>, ForwardFlowView),
    End(Result<CallForwardStateView, ModemErrorView>),
}

impl View for ForwardStep {
    type V = ForwardStepView;

    open spec fn view(&self) -> ForwardStepView {
        match self {
            ForwardStep::Dial(code, flow) => ForwardStepView::Dial(code@, flow@),
            ForwardStep::End(r) => ForwardStepView::End(res_view(*r)),
        }
    }
}

/// What a reply to the query says of the state, given what its text reads as.
pub open spec fn asked(
    reply: Result<Seq<char>, ModemErrorView>,
    read: Result<CallForwardStateView, Seq<char>>,
) -> Result<CallForwardStateView, ModemErrorView> {
    match reply {
        Err(e) => Err(e),
        Ok(_) => match read {
            Ok(state) => Ok(state),
            Err(words) => Err(ModemErrorView::Failed(words)),
        },
    }
}

/// How the conversation goes on, given what the text of the reply reads as.
/// After a change the network is asked again; if it does not say, the change
/// counts as made.
pub open spec fn forward_next_with(
    s: ForwardFlowView,
    reply: Result<Seq<char>, ModemErrorView>,
    read: Result<CallForwardStateView, Seq<char>>,
) -> ForwardStepView {
    match s {
        ForwardFlowView::Asking => ForwardStepView::End(asked(reply, read)),
        ForwardFlowView::Applying { wanted } => match reply {
            Err(e) => ForwardStepView::End(Err(e)),
            Ok(_) => ForwardStepView::Dial("*#21#"@, ForwardFlowView::Confirming { wanted }),
        },
        ForwardFlowView::Confirming { wanted } => match asked(reply, read) {
            Ok(state) => ForwardStepView::End(Ok(state)),
            Err(_) => ForwardStepView::End(Ok(wanted)),
        },
    }
}

/// How the conversation goes on.
pub open spec fn forward_next(
    s: ForwardFlowView,
    reply: Result<Seq<char>, ModemErrorView>,
    region: Seq<char>,
) -> ForwardStepView {
    forward_next_with(
        s,
        reply,
        match reply {
            Ok(text) => ussd_reply(text, region),
            Err(_) => Err(Seq::empty()),
        },
    )
}

/// Begins to ask where calls go.
pub fn query_forward() -> (r: ForwardStep)
    ensures
        r@ == ForwardStepView::Dial("*#21#"@, ForwardFlowView::Asking),
{
    ForwardStep::Dial(ussd_query().to_owned(), ForwardFlow::Asking)
}

pub open spec fn enabling(number: Result<Seq<char>, NormalizeErrorView>) -> ForwardStepView {
    match number {
        Err(e) => ForwardStepView::End(Err(ModemErrorView::Failed(complaint(e)))),
        Ok(e164) => ForwardStepView::Dial(
            "*21*"@ + digits_of(e164) + "#"@,
            ForwardFlowView::Applying {
                wanted: CallForwardStateView { enabled: true, e164: Some(e164) },
            },
        ),
    }
}

/// Begins to forward calls to a number that was read.
pub fn forward_to(number: Result<String, NormalizeError>) -> (r: ForwardStep)
    ensures
        r@ == enabling(result_view(number)),
{
    match number {
        Err(e) => ForwardStep::End(Err(ModemError::Failed(e.message()))),
        Ok(e164) => ForwardStep::Dial(
            ussd_enable(e164.as_str()),
            ForwardFlow::Applying { wanted: CallForwardState { enabled: true, e164: Some(e164) } },
        ),
    }
}

/// Begins to forward calls to a number.
pub fn set_forward(e164: &str, default_region: &str) -> (r: ForwardStep)
    ensures
        r@ == enabling(normalized(e164@, default_region@)),
{
    forward_to(normalize_e164(e164, default_region))
}

/// Begins to switch forwarding off.
pub fn disable_forward() -> (r: ForwardStep)
    ensures
        r@ == ForwardStepView::Dial(
            "#21#"@,
            ForwardFlowView::Applying {
                wanted: CallForwardStateView { enabled: false, e164: None },
            },
        ),
{
    ForwardStep::Dial(
        ussd_disable().to_owned(),
        ForwardFlow::Applying { wanted: CallForwardState { enabled: false, e164: None } },
    )
}

impl ForwardFlow {
    /// Goes on with the reply of the network, given what its text reads as.
    pub fn next_with(
        self,
        reply: Result<String, ModemError>,
        read: Result<CallForwardState, String>,
    ) -> (r: ForwardStep)
        ensures
            r@ == forward_next_with(self@, res_view(reply), res_view(read)),
    {
        match self {
            ForwardFlow::Applying { wanted } => match apply_ussd_reply(reply) {
                Err(e) => ForwardStep::End(Err(e)),
                Ok(_) => ForwardStep::Dial(
                    ussd_query().to_owned(),
                    ForwardFlow::Confirming { wanted },
                ),
            },
            ForwardFlow::Asking => ForwardStep::End(state_of(reply, read)),
            ForwardFlow::Confirming { wanted } => match state_of(reply, read) {
                Ok(state) => ForwardStep::End(Ok(state)),
                Err(_) => ForwardStep::End(Ok(wanted)),
            },
        }
    }

    /// Goes on with the reply of the network.
    pub fn next(self, reply: Result<String, ModemError>, default_region: &str) -> (r: ForwardStep)
        ensures
            r@ == forward_next(self@, res_view(reply), default_region@),
    {
        let read = match &reply {
            Ok(text) => parse_ussd_reply(text.as_str(), default_region),
            Err(_) => {
                let none = String::new();
                assert(none@ =~= Seq::empty());
                Err(none)
            },
        };
        self.next_with(reply, read)
    }
}

fn state_of(reply: Result<String, ModemError>, read: Result<CallForwardState, String>) -> (r: Result<
    CallForwardState,
    ModemError,
>)
    ensures
        res_view(r) == asked(res_view(reply), res_view(read)),
{
    match reply {
        Err(e) => Err(e),
        Ok(_) => match read {
            Ok(state) => Ok(state),
            Err(words) => Err(ModemError::Failed(words)),
        },
    }
}

/// A change that the network refused is never told as made.
pub proof fn law_refused_change_is_an_error(
    wanted: CallForwardStateView,
    e: ModemErrorView,
    region: Seq<char>,
)
    ensures
        forward_next(ForwardFlowView::Applying { wanted }, Err(e), region) == ForwardStepView::End(
            Err(e),
        ),
{
}

/// The state that is told in the end names a number exactly when calls are
/// forwarded, as long as the state that was wanted does.
pub proof fn law_told_state_is_whole(
    s: ForwardFlowView,
    reply: Result<Seq<char>, ModemErrorView>,
    region: Seq<char>,
)
    requires
        s matches ForwardFlowView::Confirming { wanted } ==> wanted.enabled == (wanted.e164 is Some),
    ensures
        forward_next(s, reply, region) matches ForwardStepView::End(Ok(state)) ==> state.enabled
            == (state.e164 is Some),
{
    if let Ok(text) = reply {
        law_forwarding_has_a_number(text, region);
    }
}

/// If the network does not say what came of a change that it took, the change
/// counts as made.
pub proof fn law_silent_change_counts(
    wanted: CallForwardStateView,
    e: ModemErrorView,
    region: Seq<char>,
)
    ensures
        forward_next(ForwardFlowView::Confirming { wanted }, Err(e), region) == ForwardStepView::End(
            Ok(wanted),
        ),
{
}

} // verus!
