//! What the modem tells and is told, and a modem that only remembers.
use vstd::prelude::*;

use crate::call_forward::{CallForwardState, CallForwardStateView};
use crate::db::clone_opt;
use crate::decimal::{nat_text, u64_text};
use crate::normalize::{
    complaint, normalize_e164, normalized, result_view, NormalizeError, NormalizeErrorView,
};
use crate::rows::{opt_view, pair_views, res_plain, res_view, res_views, views};
use crate::text::cat;

verus! {

#[derive(Debug)]
pub struct IncomingSms {
    pub path: String,
    pub e164: String,
    pub text: String,
    pub inbound: bool,
    /// ModemManager SMS Timestamp, RFC3339 when present.
    pub timestamp: String,
}

pub struct IncomingSmsView {
    pub path: Seq<char>,
    pub e164: Seq<char>,
    pub text: Seq<char>,
    pub inbound: bool,
    pub timestamp: Seq<char>,
}

impl View for IncomingSms {
    type V = IncomingSmsView;

    open spec fn view(&self) -> IncomingSmsView {
        IncomingSmsView {
            path: self.path@,
            e164: self.e164@,
            text: self.text@,
            inbound: self.inbound,
            timestamp: self.timestamp@,
        }
    }
}

impl Clone for IncomingSms {
    fn clone(&self) -> (r: Self)
        ensures
            r@ == self@,
    {
        IncomingSms {
            path: self.path.clone(),
            e164: self.e164.clone(),
            text: self.text.clone(),
            inbound: self.inbound,
            timestamp: self.timestamp.clone(),
        }
    }
}

#[derive(Debug)]
pub enum ModemError {
    Failed(String),
    NotFound(String),
}

pub enum ModemErrorView {
    Failed(Seq<char>),
    NotFound(Seq<char>),
}

impl View for ModemError {
    type V = ModemErrorView;

    open spec fn view(&self) -> ModemErrorView {
        match self {
            ModemError::Failed(s) => ModemErrorView::Failed(s@),
            ModemError::NotFound(s) => ModemErrorView::NotFound(s@),
        }
    }
}

impl ModemErrorView {
    pub open spec fn words(self) -> Seq<char> {
        match self {
            ModemErrorView::Failed(s) => "modem error: "@ + s,
            ModemErrorView::NotFound(s) => "modem not found: "@ + s,
        }
    }
}

impl ModemError {
    /// The error in words.
    pub fn message(&self) -> (r: String)
        ensures
            r@ == self@.words(),
    {
        match self {
            ModemError::Failed(s) => cat("modem error: ", s.as_str()),
            ModemError::NotFound(s) => cat("modem not found: ", s.as_str()),
        }
    }
}

#[derive(Clone, Copy, Debug, PartialEq, Eq, Structural)]
pub enum ModemState {
    Failed,
    Unknown,
    Initializing,
    Locked,
    Disabled,
    Disabling,
    Enabling,
    Enabled,
    Searching,
    Registered,
    Disconnecting,
    Connecting,
    Connected,
}

#[derive(Clone, Copy, Debug, PartialEq, Eq, Structural)]
pub enum Registration {
    Home,
    Roaming,
}

#[derive(Clone, Copy, Debug, PartialEq, Eq, Structural)]
pub enum Radio {
    Gsm,
    Umts,
    Lte,
    Nr,
}

#[derive(Clone, Copy, Debug, PartialEq, Eq, Structural)]
pub enum SimStatus {
    Ready,
    Missing,
    PinRequired,
}

#[derive(Debug)]
pub struct ModemLive {
    pub state: ModemState,
    pub operator: Option<String>,
    pub registration: Option<Registration>,
    pub signal_percent: Option<u32>,
    pub rssi_dbm: Option<i32>,
    pub access_tech: Option<Radio>,
    pub sim: SimStatus,
}

pub struct ModemLiveView {
    pub state: ModemState,
    pub operator: Option<Seq<char>>,
    pub registration: Option<Registration>,
    pub signal_percent: Option<u32>,
    pub rssi_dbm: Option<i32>,
    pub access_tech: Option<Radio>,
    pub sim: SimStatus,
}

impl View for ModemLive {
    type V = ModemLiveView;

    open spec fn view(&self) -> ModemLiveView {
        ModemLiveView {
            state: self.state,
            operator: opt_view(self.operator),
            registration: self.registration,
            signal_percent: self.signal_percent,
            rssi_dbm: self.rssi_dbm,
            access_tech: self.access_tech,
            sim: self.sim,
        }
    }
}

impl Clone for ModemLive {
    fn clone(&self) -> (r: Self)
        ensures
            r@ == self@,
    {
        ModemLive {
            state: self.state,
            operator: clone_opt(&self.operator),
            registration: self.registration,
            signal_percent: self.signal_percent,
            rssi_dbm: self.rssi_dbm,
            access_tech: self.access_tech,
            sim: self.sim,
        }
    }
}

/// The states of ModemManager, from the number -1 on.
pub open spec fn mm_states() -> Seq<ModemState> {
    seq![
        ModemState::Failed,
        ModemState::Unknown,
        ModemState::Initializing,
        ModemState::Locked,
        ModemState::Disabled,
        ModemState::Disabling,
        ModemState::Enabling,
        ModemState::Enabled,
        ModemState::Searching,
        ModemState::Registered,
        ModemState::Disconnecting,
        ModemState::Connecting,
        ModemState::Connected,
    ]
}

pub open spec fn state_label(s: ModemState) -> Seq<char> {
    match s {
        ModemState::Failed => "Failed"@,
        ModemState::Unknown => "Unknown"@,
        ModemState::Initializing => "Initializing"@,
        ModemState::Locked => "Locked"@,
        ModemState::Disabled => "Disabled"@,
        ModemState::Disabling => "Disabling"@,
        ModemState::Enabling => "Enabling"@,
        ModemState::Enabled => "Enabled"@,
        ModemState::Searching => "Searching"@,
        ModemState::Registered => "Registered"@,
        ModemState::Disconnecting => "Disconnecting"@,
        ModemState::Connecting => "Connecting"@,
        ModemState::Connected => "Connected"@,
    }
}

impl ModemState {
    /// The state that a number of ModemManager stands for; one that it does not
    /// know stands for `Unknown`.
    pub fn from_mm(v: i32) -> (r: Self)
        ensures
            r == if -1 <= v <= 11 {
                mm_states()[v + 1]
            } else {
                ModemState::Unknown
            },
    {
        match v {
            -1 => Self::Failed,
            0 => Self::Unknown,
            1 => Self::Initializing,
            2 => Self::Locked,
            3 => Self::Disabled,
            4 => Self::Disabling,
            5 => Self::Enabling,
            6 => Self::Enabled,
            7 => Self::Searching,
            8 => Self::Registered,
            9 => Self::Disconnecting,
            10 => Self::Connecting,
            11 => Self::Connected,
            _ => Self::Unknown,
        }
    }

    pub fn label(self) -> (r: &'static str)
        ensures
            r@ == state_label(self),
    {
        match self {
            Self::Failed => "Failed",
            Self::Unknown => "Unknown",
            Self::Initializing => "Initializing",
            Self::Locked => "Locked",
            Self::Disabled => "Disabled",
            Self::Disabling => "Disabling",
            Self::Enabling => "Enabling",
            Self::Enabled => "Enabled",
            Self::Searching => "Searching",
            Self::Registered => "Registered",
            Self::Disconnecting => "Disconnecting",
            Self::Connecting => "Connecting",
            Self::Connected => "Connected",
        }
    }
}

impl Registration {
    /// The registration that a number of ModemManager stands for, where it
    /// stands for one.
    pub fn from_mm(v: u32) -> (r: Option<Self>)
        ensures
            r == if v == 1 || v == 6 {
                Some(Registration::Home)
            } else if v == 5 || v == 7 {
                Some(Registration::Roaming)
            } else {
                None
            },
    {
        match v {
            1 => Some(Self::Home),
            6 => Some(Self::Home),
            5 => Some(Self::Roaming),
            7 => Some(Self::Roaming),
            _ => None,
        }
    }
}

/// One of the bits from `lo` up to `hi` is set.
pub open spec fn any_bit(bits: u32, lo: u32, hi: u32) -> bool {
    exists|i: u32| lo <= i <= hi && #[trigger] (bits >> i) & 1 == 1
}

/// The most modern access technology that the bits name.
pub open spec fn best_radio(bits: u32) -> Option<Radio> {
    if any_bit(bits, 15, 15) {
        Some(Radio::Nr)
    } else if any_bit(bits, 14, 14) {
        Some(Radio::Lte)
    } else if any_bit(bits, 5, 9) {
        Some(Radio::Umts)
    } else if any_bit(bits, 1, 4) {
        Some(Radio::Gsm)
    } else {
        None
    }
}

pub(crate) proof fn lemma_masks(bits: u32)
    ensures
        (bits & 0x8000 != 0) == any_bit(bits, 15, 15),
        (bits & 0x4000 != 0) == any_bit(bits, 14, 14),
        (bits & 0x3e0 != 0) == any_bit(bits, 5, 9),
        (bits & 0x1e != 0) == any_bit(bits, 1, 4),
{
    assert((bits & 0x8000 != 0) == ((bits >> 15u32) & 1 == 1)) by (bit_vector);
    assert((bits & 0x4000 != 0) == ((bits >> 14u32) & 1 == 1)) by (bit_vector);
    assert((bits & 0x3e0 != 0) == ((bits >> 5u32) & 1 == 1 || (bits >> 6u32) & 1 == 1 || (bits
        >> 7u32) & 1 == 1 || (bits >> 8u32) & 1 == 1 || (bits >> 9u32) & 1 == 1)) by (bit_vector);
    assert((bits & 0x1e != 0) == ((bits >> 1u32) & 1 == 1 || (bits >> 2u32) & 1 == 1 || (bits
        >> 3u32) & 1 == 1 || (bits >> 4u32) & 1 == 1)) by (bit_vector);
    if any_bit(bits, 5, 9) {
        let i = choose|i: u32| 5 <= i <= 9 && #[trigger] (bits >> i) & 1 == 1;
        assert(i == 5 || i == 6 || i == 7 || i == 8 || i == 9);
    }
    if any_bit(bits, 1, 4) {
        let i = choose|i: u32| 1 <= i <= 4 && #[trigger] (bits >> i) & 1 == 1;
        assert(i == 1 || i == 2 || i == 3 || i == 4);
    }
}

pub fn radio_from_access_tech(bits: u32) -> (r: Option<Radio>)
    ensures
        r == best_radio(bits),
{
    proof {
        lemma_masks(bits);
    }
    if bits & 0x8000 != 0 {
        Some(Radio::Nr)
    } else if bits & 0x4000 != 0 {
        Some(Radio::Lte)
    } else if bits & 0x3e0 != 0 {
        Some(Radio::Umts)
    } else if bits & 0x1e != 0 {
        Some(Radio::Gsm)
    } else {
        None
    }
}

/// A failed modem whose reason is a missing card, or a locked one that wants
/// its PIN; otherwise the card is in order.
pub open spec fn sim_of(state: ModemState, failed_reason: u32, unlock: u32) -> SimStatus {
    if state == ModemState::Failed && failed_reason == 2 {
        SimStatus::Missing
    } else if state == ModemState::Locked && unlock == 2 {
        SimStatus::PinRequired
    } else {
        SimStatus::Ready
    }
}

pub fn sim_status(state: ModemState, failed_reason: u32, unlock: u32) -> (r: SimStatus)
    ensures
        r == sim_of(state, failed_reason, unlock),
{
    if state == ModemState::Failed && failed_reason == 2 {
        SimStatus::Missing
    } else if state == ModemState::Locked && unlock == 2 {
        SimStatus::PinRequired
    } else {
        SimStatus::Ready
    }
}

// ---------------------------------------------------------------------------
// A modem that only remembers
// ---------------------------------------------------------------------------

/// A modem without hardware: it remembers what it was asked to do.
pub struct FakeModem {
    pub sent: Vec<(String, String)>,
    pub deleted: Vec<String>,
    pub fail: bool,
    pub delete_fail: bool,
    pub path_seq: u64,
    pub live: Option<ModemLive>,
    pub listed: Vec<IncomingSms>,
    pub forward: CallForwardState,
    pub forward_fail: bool,
}

pub struct FakeModemView {
    pub sent: Seq<(Seq<char>, Seq<char>)>,
    pub deleted: Seq<Seq<char>>,
    pub fail: bool,
    pub delete_fail: bool,
    pub path_seq: u64,
    pub live: Option<ModemLiveView>,
    pub listed: Seq<IncomingSmsView>,
    pub forward: CallForwardStateView,
    pub forward_fail: bool,
}

impl View for FakeModem {
    type V = FakeModemView;

    open spec fn view(&self) -> FakeModemView {
        FakeModemView {
            sent: pair_views(self.sent@),
            deleted: views(self.deleted@),
            fail: self.fail,
            delete_fail: self.delete_fail,
            path_seq: self.path_seq,
            live: opt_view(self.live),
            listed: views(self.listed@),
            forward: self.forward@,
            forward_fail: self.forward_fail,
        }
    }
}

impl Default for FakeModem {
    fn default() -> (r: Self)
        ensures
            r@ == (FakeModemView {
                sent: Seq::empty(),
                deleted: Seq::empty(),
                fail: false,
                delete_fail: false,
                path_seq: 0,
                live: None,
                listed: Seq::empty(),
                forward: CallForwardStateView { enabled: false, e164: None },
                forward_fail: false,
            }),
    {
        let r = FakeModem {
            sent: Vec::new(),
            deleted: Vec::new(),
            fail: false,
            delete_fail: false,
            path_seq: 0,
            live: None,
            listed: Vec::new(),
            forward: CallForwardState { enabled: false, e164: None },
            forward_fail: false,
        };
        assert(r@.sent =~= Seq::empty());
        assert(r@.deleted =~= Seq::empty());
        assert(r@.listed =~= Seq::empty());
        r
    }
}

/// What setting the number that calls go to changes.
pub open spec fn forward_set(
    m: FakeModemView,
    number: Result<Seq<char>, NormalizeErrorView>,
) -> FakeModemView {
    match number {
        Ok(n) => if m.forward_fail {
            m
        } else {
            FakeModemView {
                forward: CallForwardStateView { enabled: true, e164: Some(n) },
                ..m
            }
        },
        Err(_) => m,
    }
}

/// How setting the number that calls go to ends.
pub open spec fn forward_told(
    m: FakeModemView,
    number: Result<Seq<char>, NormalizeErrorView>,
) -> Result<CallForwardStateView, ModemErrorView> {
    if m.forward_fail {
        Err(ModemErrorView::Failed("forward fail"@))
    } else {
        match number {
            Ok(n) => Ok(CallForwardStateView { enabled: true, e164: Some(n) }),
            Err(e) => Err(ModemErrorView::Failed(complaint(e))),
        }
    }
}

impl FakeModem {
    /// Remembers a message as sent, under a path of its own.
    pub fn send(&mut self, e164: &str, text: &str) -> (r: Result<String, ModemError>)
        requires
            old(self).path_seq < u64::MAX,
        ensures
            old(self)@.fail ==> final(self)@ == old(self)@ && res_view(r) == Err::<
                Seq<char>,
                ModemErrorView,
            >(ModemErrorView::Failed("error"@)),
            !old(self)@.fail ==> final(self)@ == (FakeModemView {
                sent: old(self)@.sent.push((e164@, text@)),
                path_seq: (old(self)@.path_seq + 1) as u64,
                ..old(self)@
            }) && res_view(r) == Ok::<Seq<char>, ModemErrorView>(
                "/fake/sms/"@ + nat_text((old(self)@.path_seq + 1) as nat),
            ),
    {
        if self.fail {
            return Err(ModemError::Failed("error".to_owned()));
        }
        let n: u64 = self.path_seq + 1;
        self.path_seq = n;
        let path = cat("/fake/sms/", u64_text(n).as_str());
        let ghost before = self.sent@;
        self.sent.push((e164.to_owned(), text.to_owned()));
        assert(pair_views(self.sent@) =~= pair_views(before).push((e164@, text@)));
        Ok(path)
    }

    /// Remembers a message as deleted.
    pub fn delete(&mut self, path: &str) -> (r: Result<(), ModemError>)
        ensures
            old(self)@.delete_fail ==> final(self)@ == old(self)@ && res_plain(r) == Err::<
                (),
                ModemErrorView,
            >(ModemErrorView::Failed("delete failed"@)),
            !old(self)@.delete_fail ==> final(self)@ == (FakeModemView {
                deleted: old(self)@.deleted.push(path@),
                ..old(self)@
            }) && r is Ok,
    {
        if self.delete_fail {
            return Err(ModemError::Failed("delete failed".to_owned()));
        }
        let ghost before = self.deleted@;
        self.deleted.push(path.to_owned());
        assert(views(self.deleted@) =~= views(before).push(path@));
        Ok(())
    }

    pub fn list_sms(&self) -> (r: Result<Vec<IncomingSms>, ModemError>)
        ensures
            res_views(r) == Ok::<Seq<IncomingSmsView>, ModemErrorView>(self@.listed),
    {
        let mut out: Vec<IncomingSms> = Vec::new();
        let mut i: usize = 0;
        while i < self.listed.len()
            invariant
                i <= self.listed@.len(),
                views(out@) == self@.listed.take(i as int),
            decreases self.listed@.len() - i,
        {
            let ghost so_far = out@;
            out.push(self.listed[i].clone());
            assert(views(out@) =~= views(so_far).push(self.listed@[i as int]@));
            i = i + 1;
        }
        assert(self@.listed.take(i as int) =~= self@.listed);
        Ok(out)
    }

    pub fn snapshot(&self) -> (r: Result<ModemLive, ModemError>)
        ensures
            res_view(r) == match self@.live {
                Some(live) => Ok::<ModemLiveView, ModemErrorView>(live),
                None => Err::<ModemLiveView, ModemErrorView>(ModemErrorView::NotFound("fake"@)),
            },
    {
        match &self.live {
            Some(live) => Ok(live.clone()),
            None => Err(ModemError::NotFound("fake".to_owned())),
        }
    }

    pub fn query_forward(&self, default_region: &str) -> (r: Result<CallForwardState, ModemError>)
        ensures
            res_view(r) == if self@.forward_fail {
                Err::<CallForwardStateView, ModemErrorView>(
                    ModemErrorView::Failed("forward fail"@),
                )
            } else {
                Ok::<CallForwardStateView, ModemErrorView>(self@.forward)
            },
    {
        if self.forward_fail {
            return Err(ModemError::Failed("forward fail".to_owned()));
        }
        Ok(self.forward.clone())
    }

    /// Remembers where calls go from now on, if that reads as a number.
    pub fn forward_to(&mut self, number: Result<String, NormalizeError>) -> (r: Result<
        CallForwardState,
        ModemError,
    >)
        ensures
            final(self)@ == forward_set(old(self)@, result_view(number)),
            res_view(r) == forward_told(old(self)@, result_view(number)),
    {
        if self.forward_fail {
            return Err(ModemError::Failed("forward fail".to_owned()));
        }
        match number {
            Ok(n) => {
                let st = CallForwardState { enabled: true, e164: Some(n) };
                self.forward = st.clone();
                Ok(st)
            },
            Err(e) => Err(ModemError::Failed(e.message())),
        }
    }

    /// Remembers where calls go from now on, if that is a number.
    pub fn set_forward(&mut self, e164: &str, default_region: &str) -> (r: Result<
        CallForwardState,
        ModemError,
    >)
        ensures
            final(self)@ == forward_set(old(self)@, normalized(e164@, default_region@)),
            res_view(r) == forward_told(old(self)@, normalized(e164@, default_region@)),
    {
        self.forward_to(normalize_e164(e164, default_region))
    }

    /// Remembers that calls go nowhere else from now on.
    pub fn disable_forward(&mut self, default_region: &str) -> (r: Result<
        CallForwardState,
        ModemError,
    >)
        ensures
            old(self)@.forward_fail ==> final(self)@ == old(self)@ && res_view(r) == Err::<
                CallForwardStateView,
                ModemErrorView,
            >(ModemErrorView::Failed("forward fail"@)),
            !old(self)@.forward_fail ==> ({
                let st = CallForwardStateView { enabled: false, e164: None };
                &&& final(self)@ == (FakeModemView { forward: st, ..old(self)@ })
                &&& res_view(r) == Ok::<CallForwardStateView, ModemErrorView>(st)
            }),
    {
        if self.forward_fail {
            return Err(ModemError::Failed("forward fail".to_owned()));
        }
        let st = CallForwardState { enabled: false, e164: None };
        self.forward = st.clone();
        Ok(st)
    }
}

} // verus!
