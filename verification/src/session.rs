//! The tray session: configuration, lifecycle, and event decoding.
//!
//! A session is configured builder-style (organization and application id,
//! context-menu entries, an icon payload), then started, polled, and stopped.
//! The session core decides every step: which strings may cross to the native
//! side, whether `start` must spawn a background loop, whether `stop` owes a
//! join, and how a polled raw event decodes. The process shell around the
//! library performs the native calls and the thread spawn/join exactly as
//! these decisions dictate.

use vstd::prelude::*;
use vstd::utf8::encode_utf8;

use crate::error::SystemTrayError;
use crate::events::spec_decode;
use crate::events::Event;
use crate::events::EventView;
use crate::events::EVENT_CODE_MENU_ITEM_CLICKED;
use crate::events::EVENT_CODE_NONE;
use crate::events::EVENT_CODE_TRAY_CLICKED;
use crate::events::EVENT_CODE_TRAY_DOUBLE_CLICKED;
use crate::native_str::has_nul_byte;
use crate::native_str::is_first_nul;
use crate::native_str::lemma_ascii_nul_free;
use crate::native_str::validate_native_string;

verus! {

/// Represents a menu item that can be added to the system tray context menu.
///
/// The identifier is caller-chosen and is echoed back verbatim in
/// menu-item-clicked events; it should be unique among the items of one
/// session, or click events become ambiguous.
pub struct Menu {
    text: String,
    id: String,
}

impl Menu {
    /// The display text of the entry.
    pub closed spec fn text_view(&self) -> Seq<char> {
        self.text@
    }

    /// The caller-chosen identifier of the entry.
    pub closed spec fn id_view(&self) -> Seq<char> {
        self.id@
    }

    /// Creates a new `Menu` item with the given `text` and unique `id`.
    pub fn new(text: String, id: String) -> (r: Self)
        ensures
            r.text_view() == text@,
            r.id_view() == id@,
    {
        Menu { text, id }
    }

    /// The display text of the entry, as it is forwarded to the native side.
    pub fn text(&self) -> (r: &str)
        ensures
            r@ == self.text_view(),
    {
        self.text.as_str()
    }

    /// The identifier of the entry, as it is forwarded to the native side.
    pub fn id(&self) -> (r: &str)
        ensures
            r@ == self.id_view(),
    {
        self.id.as_str()
    }
}

/// The abstract state of a tray session: the configuration that has been
/// forwarded to the native side, and whether a background loop is recorded
/// as running.
pub ghost struct TrayView {
    /// The organization name the session was constructed with.
    pub organization: Seq<char>,
    /// The application identifier the session was constructed with.
    pub app_id: Seq<char>,
    /// The context-menu entries forwarded so far, as (text, identifier)
    /// pairs, in the order they were added.
    pub menus: Seq<(Seq<char>, Seq<char>)>,
    /// The icon forwarded so far, if any: payload length and format tag.
    pub icon: Option<(usize, Seq<char>)>,
    /// Whether a background loop is recorded for this session.
    pub running: bool,
}

impl TrayView {
    /// Well-formedness of a session: every string recorded as forwarded to
    /// the native side — organization, application id, menu texts and
    /// identifiers, the icon format tag — is free of embedded terminator
    /// bytes. Constructors establish this and every operation preserves it,
    /// so the native side never sees an invalid string.
    pub open spec fn wf(self) -> bool {
        &&& !has_nul_byte(encode_utf8(self.organization))
        &&& !has_nul_byte(encode_utf8(self.app_id))
        &&& forall|i: int|
            0 <= i < self.menus.len() ==> !has_nul_byte(encode_utf8((#[trigger] self.menus[i]).0))
                && !has_nul_byte(encode_utf8(self.menus[i].1))
        &&& self.icon matches Some(ic) ==> !has_nul_byte(encode_utf8(ic.1))
    }
}

/// The state transition of `start`: the session is recorded as running
/// afterwards, and a new background loop is to be spawned exactly when none
/// was recorded before (the claim on the task slot succeeds).
pub open spec fn spec_start(v: TrayView) -> (TrayView, bool) {
    (TrayView { running: true, ..v }, !v.running)
}

/// The state transition of `stop`: the session is recorded as stopped
/// afterwards, and a join on the background loop is owed exactly when one
/// was recorded before.
pub open spec fn spec_stop(v: TrayView) -> (TrayView, bool) {
    (TrayView { running: false, ..v }, v.running)
}

/// Represents the system tray icon and its associated application.
///
/// This is the decision core of the session: it validates every string
/// before the native side may see it, tracks the forwarded configuration,
/// and runs the lifecycle state machine. The native handle itself and the
/// background thread live in the process shell, which consults this core.
pub struct SystemTray {
    organization: String,
    app_id: String,
    menus: Vec<Menu>,
    icon: Option<(usize, String)>,
    running: bool,
}

impl View for SystemTray {
    type V = TrayView;

    closed spec fn view(&self) -> TrayView {
        TrayView {
            organization: self.organization@,
            app_id: self.app_id@,
            menus: self.menus@.map_values(|m: Menu| (m.text_view(), m.id_view())),
            icon: match self.icon {
                Option::Some((len, f)) => Option::Some((len, f@)),
                Option::None => Option::None,
            },
            running: self.running,
        }
    }
}

impl SystemTray {
    /// Creates a new `SystemTray` session for the given organization name
    /// and application identifier.
    ///
    /// Both strings are validated before anything else happens: a string
    /// holding an embedded terminator byte is rejected with
    /// `SystemTrayError::Ffi` (carrying the byte index of the first
    /// terminator, the organization string being checked first), and no
    /// native call may be made for a rejected configuration.
    pub fn new(organization: &str, app_id: &str) -> (r: Result<SystemTray, SystemTrayError>)
        ensures
            r is Ok <==> !has_nul_byte(encode_utf8(organization@)) && !has_nul_byte(
                encode_utf8(app_id@),
            ),
            r matches Ok(t) ==> {
                &&& t@.organization == organization@
                &&& t@.app_id == app_id@
                &&& t@.menus == Seq::<(Seq<char>, Seq<char>)>::empty()
                &&& t@.icon is None
                &&& !t@.running
                &&& t@.wf()
            },
            r matches Err(e) ==> e matches SystemTrayError::Ffi(i) && (if has_nul_byte(
                encode_utf8(organization@),
            ) {
                is_first_nul(encode_utf8(organization@), i)
            } else {
                is_first_nul(encode_utf8(app_id@), i)
            }),
    {
        match validate_native_string(organization) {
            Err(e) => {
                return Err(e);
            },
            Ok(()) => {},
        }
        match validate_native_string(app_id) {
            Err(e) => {
                return Err(e);
            },
            Ok(()) => {},
        }
        let t = SystemTray {
            organization: organization.to_owned(),
            app_id: app_id.to_owned(),
            menus: Vec::new(),
            icon: None,
            running: false,
        };
        proof {
            assert(t@.menus =~= Seq::<(Seq<char>, Seq<char>)>::empty());
        }
        Ok(t)
    }

    /// Adds a menu item to the system tray's context menu.
    ///
    /// This method consumes `self` and returns the session again, allowing
    /// for method chaining. The entry's text and identifier are validated
    /// first: a string with an embedded terminator byte aborts the
    /// configuration chain with `SystemTrayError::Ffi` (the text being
    /// checked first), and the entry is not forwarded.
    pub fn menu(self, menu: Menu) -> (r: Result<SystemTray, SystemTrayError>)
        ensures
            r is Ok <==> !has_nul_byte(encode_utf8(menu.text_view())) && !has_nul_byte(
                encode_utf8(menu.id_view()),
            ),
            r matches Ok(t) ==> {
                &&& t@.organization == self@.organization
                &&& t@.app_id == self@.app_id
                &&& t@.menus == self@.menus.push((menu.text_view(), menu.id_view()))
                &&& t@.icon == self@.icon
                &&& t@.running == self@.running
                &&& self@.wf() ==> t@.wf()
            },
            r matches Err(e) ==> e matches SystemTrayError::Ffi(i) && (if has_nul_byte(
                encode_utf8(menu.text_view()),
            ) {
                is_first_nul(encode_utf8(menu.text_view()), i)
            } else {
                is_first_nul(encode_utf8(menu.id_view()), i)
            }),
    {
        match validate_native_string(menu.text.as_str()) {
            Err(e) => {
                return Err(e);
            },
            Ok(()) => {},
        }
        match validate_native_string(menu.id.as_str()) {
            Err(e) => {
                return Err(e);
            },
            Ok(()) => {},
        }
        let mut t = self;
        let ghost prev = t@.menus;
        t.menus.push(menu);
        proof {
            assert(t@.menus =~= prev.push(
                (t.menus@[t.menus@.len() - 1].text_view(), t.menus@[t.menus@.len() - 1].id_view()),
            ));
        }
        Ok(t)
    }

    /// Sets the icon for the system tray from a caller-owned byte buffer and
    /// a format tag.
    ///
    /// This method consumes `self` and returns the session again, allowing
    /// for method chaining. The format tag is validated first: a tag with an
    /// embedded terminator byte aborts the configuration chain with
    /// `SystemTrayError::Ffi`, and nothing is forwarded. The payload bytes
    /// themselves are opaque; the session records that they were forwarded
    /// once, with their length and format.
    pub fn icon(self, icon_data: &[u8], icon_format: &str) -> (r: Result<
        SystemTray,
        SystemTrayError,
    >)
        ensures
            r is Ok <==> !has_nul_byte(encode_utf8(icon_format@)),
            r matches Ok(t) ==> {
                &&& t@.organization == self@.organization
                &&& t@.app_id == self@.app_id
                &&& t@.menus == self@.menus
                &&& t@.icon == Some((icon_data@.len() as usize, icon_format@))
                &&& t@.running == self@.running
                &&& self@.wf() ==> t@.wf()
            },
            r matches Err(e) ==> e matches SystemTrayError::Ffi(i) && is_first_nul(
                encode_utf8(icon_format@),
                i,
            ),
    {
        match validate_native_string(icon_format) {
            Err(e) => {
                return Err(e);
            },
            Ok(()) => {},
        }
        let mut t = self;
        t.icon = Some((icon_data.len(), icon_format.to_owned()));
        Ok(t)
    }

    /// Starts the session: records a background loop as running.
    ///
    /// Returns whether the caller has claimed the task slot and must now
    /// spawn the background loop that drives the native event loop — `true`
    /// exactly when no loop was recorded before, so two concurrent starts
    /// cannot both spawn a loop owner over the same handle.
    pub fn start(&mut self) -> (spawn: bool)
        ensures
            final(self)@ == spec_start(old(self)@).0,
            spawn == spec_start(old(self)@).1,
            old(self)@.wf() ==> final(self)@.wf(),
    {
        let claimed = !self.running;
        self.running = true;
        claimed
    }

    /// Stops the session: records the background loop as stopped.
    ///
    /// Returns whether a join on the background loop is owed — `true`
    /// exactly when a loop was recorded before, so stopping a session that
    /// was never started (or was already stopped) is a no-op and joins
    /// nothing.
    pub fn stop(&mut self) -> (join: bool)
        ensures
            final(self)@ == spec_stop(old(self)@).0,
            join == spec_stop(old(self)@).1,
            old(self)@.wf() ==> final(self)@.wf(),
    {
        let was_running = self.running;
        self.running = false;
        was_running
    }

    /// Decodes one polled raw event from the native side.
    ///
    /// The native single-shot poll yields a discriminant and, for a
    /// menu-item click only, an owned identifier payload; the shell hands
    /// both here. The identifier is moved into the event verbatim — this is
    /// the single point of ownership transfer for that payload. A menu-item
    /// click without a payload means the reporting machinery failed
    /// (`SendError`); an unknown discriminant yields `PollEventError`
    /// carrying that exact value. The decode never touches the session
    /// state, so it is safe in every lifecycle state.
    pub fn poll_event(&self, code: u32, menu_id: Option<String>) -> (r: Result<
        Event,
        SystemTrayError,
    >)
        ensures
            code == EVENT_CODE_NONE ==> r == Ok::<Event, SystemTrayError>(Event::NoEvent),
            code == EVENT_CODE_TRAY_CLICKED ==> r == Ok::<Event, SystemTrayError>(
                Event::TrayClicked,
            ),
            code == EVENT_CODE_TRAY_DOUBLE_CLICKED ==> r == Ok::<Event, SystemTrayError>(
                Event::TrayDoubleClicked,
            ),
            code == EVENT_CODE_MENU_ITEM_CLICKED ==> r == (match menu_id {
                Some(id) => Ok::<Event, SystemTrayError>(Event::MenuItemClicked(id)),
                None => Err::<Event, SystemTrayError>(SystemTrayError::SendError),
            }),
            code != EVENT_CODE_NONE && code != EVENT_CODE_TRAY_CLICKED && code
                != EVENT_CODE_TRAY_DOUBLE_CLICKED && code != EVENT_CODE_MENU_ITEM_CLICKED ==> r
                == Err::<Event, SystemTrayError>(SystemTrayError::PollEventError(code)),
            (match r {
                Ok(ev) => Ok::<EventView, SystemTrayError>(ev@),
                Err(e) => Err::<EventView, SystemTrayError>(e),
            }) == spec_decode(
                code,
                match menu_id {
                    Some(id) => Some(id@),
                    None => None,
                },
            ),
    {
        if code == EVENT_CODE_NONE {
            Ok(Event::NoEvent)
        } else if code == EVENT_CODE_TRAY_CLICKED {
            Ok(Event::TrayClicked)
        } else if code == EVENT_CODE_TRAY_DOUBLE_CLICKED {
            Ok(Event::TrayDoubleClicked)
        } else if code == EVENT_CODE_MENU_ITEM_CLICKED {
            match menu_id {
                Some(id) => Ok(Event::MenuItemClicked(id)),
                None => Err(SystemTrayError::SendError),
            }
        } else {
            Err(SystemTrayError::PollEventError(code))
        }
    }

    /// Whether a background loop is currently recorded for this session.
    pub fn is_running(&self) -> (b: bool)
        ensures
            b == self@.running,
    {
        self.running
    }

    /// How many context-menu entries have been forwarded so far.
    pub fn menu_len(&self) -> (n: usize)
        ensures
            n == self@.menus.len(),
    {
        self.menus.len()
    }

    /// Whether an icon payload has been forwarded.
    pub fn has_icon(&self) -> (b: bool)
        ensures
            b == (self@.icon is Some),
    {
        self.icon.is_some()
    }
}

impl Default for SystemTray {
    /// Creates a default session with "MyOrganization" and "MyApp" as
    /// identifiers. Both are plain ASCII without terminators, so the
    /// resulting session is well formed like any other fresh session.
    fn default() -> (r: Self)
        ensures
            r@.organization == "MyOrganization"@,
            r@.app_id == "MyApp"@,
            r@.menus == Seq::<(Seq<char>, Seq<char>)>::empty(),
            r@.icon is None,
            !r@.running,
            r@.wf(),
    {
        let t = SystemTray {
            organization: "MyOrganization".to_owned(),
            app_id: "MyApp".to_owned(),
            menus: Vec::new(),
            icon: None,
            running: false,
        };
        proof {
            reveal_strlit("MyOrganization");
            reveal_strlit("MyApp");
            assert(t@.menus =~= Seq::<(Seq<char>, Seq<char>)>::empty());
            lemma_ascii_nul_free("MyOrganization"@);
            lemma_ascii_nul_free("MyApp"@);
        }
        t
    }
}

/// A session that was started and then stopped is stopped again, keeps its
/// configuration untouched, and a later `start` claims a fresh background
/// loop — the lifecycle can be re-entered.
pub proof fn lemma_start_stop_restart(v: TrayView)
    ensures
        !spec_stop(spec_start(v).0).0.running,
        spec_stop(spec_start(v).0).0 == (TrayView { running: false, ..v }),
        spec_start(spec_stop(spec_start(v).0).0).1,
{
}

/// Stopping a session that was never started (it records no background
/// loop) is a no-op: the state is unchanged and no join is owed.
pub proof fn lemma_stop_never_started(v: TrayView)
    requires
        !v.running,
    ensures
        spec_stop(v).0 == v,
        !spec_stop(v).1,
{
}

/// Stopping is idempotent: after one stop has completed, a second stop
/// changes nothing and owes no join, so the background loop can never be
/// joined twice.
pub proof fn lemma_stop_idempotent(v: TrayView)
    ensures
        spec_stop(spec_stop(v).0).0 == spec_stop(v).0,
        !spec_stop(spec_stop(v).0).1,
{
}

/// Round trip: a menu identifier recorded at configuration time, handed back
/// by the native side in a menu-click event, decodes to a menu-item-clicked
/// event carrying that identifier verbatim.
pub proof fn lemma_menu_click_round_trip(v: TrayView, k: int)
    requires
        0 <= k < v.menus.len(),
    ensures
        spec_decode(EVENT_CODE_MENU_ITEM_CLICKED, Some(v.menus[k].1)) == Ok::<
            EventView,
            SystemTrayError,
        >(EventView::MenuItemClicked(v.menus[k].1)),
{
}

} // verus!
