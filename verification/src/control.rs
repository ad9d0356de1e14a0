//! The control loop: the single consumer of the multiplexed event stream
//! and the sole mutator of the session registry.
//!
//! A [`Controller`] holds the registry, one palette per live session
//! (copied from a named theme at creation), the theme table, and the
//! derived presentation titles. Feeding it a UI command or a tagged
//! session event mutates that state and returns the actions the caller
//! must perform on the outside world: spawn a session, write a reply
//! into a session's input stream without scrolling, refresh a session,
//! or tear the window down.

use vstd::prelude::*;
use vstd::string::StringExecFns;

use crate::events::SessionEvent;
use crate::palette::Palette;
use crate::palette::Rgb;
use crate::palette::spec_resolve;
use crate::registry::Registry;
use crate::registry::TabModel;
use crate::registry::first_index_of;
use crate::registry::spec_rename;

verus! {

/// The placeholder title of a fresh tab, and the title a reset settles on.
pub open spec fn spec_default_title() -> Seq<char> {
    "New Terminal"@
}

/// A copy of the placeholder title.
pub fn default_title() -> (t: String)
    ensures
        t@ == spec_default_title(),
{
    "New Terminal".to_owned()
}

/// The application name shown in the window title.
pub open spec fn spec_app_name() -> Seq<char> {
    "COSMIC Terminal"@
}

/// The header label: the active tab's title, or empty when no tab is
/// active.
pub open spec fn spec_header_title(active: Option<Seq<char>>) -> Seq<char> {
    match active {
        Some(t) => t,
        None => Seq::empty(),
    }
}

/// The window label: the active tab's title joined to the application
/// name, or the application name alone when no tab is active.
pub open spec fn spec_window_title(active: Option<Seq<char>>) -> Seq<char> {
    match active {
        Some(t) => t + " — "@ + spec_app_name(),
        None => spec_app_name(),
    }
}

/// Mathematical image of one live session: its id and its resolved
/// palette.
pub ghost struct SessionModelView {
    pub id: u64,
    pub palette: Seq<Option<Rgb>>,
}

/// One live session's model state: the palette resolved at creation.
/// The emulation engine and pseudo-terminal handles live with the
/// caller, keyed by the same id.
pub struct SessionModel {
    pub id: u64,
    pub palette: Palette,
}

impl View for SessionModel {
    type V = SessionModelView;

    open spec fn view(&self) -> SessionModelView {
        SessionModelView { id: self.id, palette: self.palette@ }
    }
}

/// Mathematical image of a named theme.
pub ghost struct ThemeModel {
    pub name: Seq<char>,
    pub palette: Seq<Option<Rgb>>,
}

/// A named color table; sessions copy the table of the configured theme
/// at creation time and never share it.
pub struct Theme {
    pub name: String,
    pub palette: Palette,
}

impl View for Theme {
    type V = ThemeModel;

    open spec fn view(&self) -> ThemeModel {
        ThemeModel { name: self.name@, palette: self.palette@ }
    }
}

/// Index of the first theme with the given name, or -1 when none has it.
pub open spec fn theme_index_of(themes: Seq<ThemeModel>, name: Seq<char>) -> int
    decreases themes.len(),
{
    if themes.len() == 0 {
        -1
    } else if themes[0].name == name {
        0
    } else {
        let r = theme_index_of(themes.drop_first(), name);
        if r < 0 {
            -1
        } else {
            r + 1
        }
    }
}

/// Whether some theme carries the given name.
pub open spec fn spec_has_theme(themes: Seq<ThemeModel>, name: Seq<char>) -> bool {
    theme_index_of(themes, name) >= 0
}

/// `theme_index_of` finds the first matching theme exactly when one
/// exists.
pub proof fn lemma_theme_index_of(themes: Seq<ThemeModel>, name: Seq<char>)
    ensures
        (exists|k: int| 0 <= k < themes.len() && themes[k].name == name) ==> {
            let p = theme_index_of(themes, name);
            &&& 0 <= p < themes.len()
            &&& themes[p].name == name
            &&& forall|k: int| 0 <= k < p ==> themes[k].name != name
        },
        !(exists|k: int| 0 <= k < themes.len() && themes[k].name == name) ==> theme_index_of(
            themes,
            name,
        ) == -1,
    decreases themes.len(),
{
    if themes.len() == 0 {
    } else if themes[0].name == name {
    } else {
        let rest = themes.drop_first();
        lemma_theme_index_of(rest, name);
        assert(forall|k: int| 0 <= k < rest.len() ==> rest[k] == themes[k + 1]);
        if exists|k: int| 0 <= k < themes.len() && themes[k].name == name {
            let w = choose|w: int| 0 <= w < themes.len() && themes[w].name == name;
            assert(rest[w - 1].name == name);
            let r = theme_index_of(rest, name);
            assert(0 <= r < rest.len() && rest[r].name == name);
            assert(themes[r + 1].name == name);
            assert forall|k: int| 0 <= k < r + 1 implies themes[k].name != name by {
                if k > 0 {
                    assert(rest[k - 1].name != name);
                }
            }
        }
        if exists|k: int| 0 <= k < rest.len() && rest[k].name == name {
            let w = choose|w: int| 0 <= w < rest.len() && rest[w].name == name;
            assert(themes[w + 1].name == name);
        }
    }
}

/// The palette of the first theme with the given name.
pub open spec fn spec_theme_palette(themes: Seq<ThemeModel>, name: Seq<char>) -> Seq<Option<Rgb>> {
    themes[theme_index_of(themes, name)].palette
}

/// A command from the UI surface: open a tab, select a tab, close a tab.
pub enum UiCommand {
    NewTab,
    Activate { id: u64 },
    Close { id: u64 },
}

/// What the caller must do after a step of the control loop. Replies to
/// queries always name the session that asked, and are delivered through
/// that session's no-scroll write path so answering never disturbs what
/// the user is viewing.
pub enum Action {
    /// Spawn the emulation engine and pseudo-terminal for the new
    /// session `id`; its palette is already recorded in the controller.
    CreateSession { id: u64 },
    /// Build the color-query reply from `color` with the session's reply
    /// builder and write it to session `id` without scrolling.
    RespondColor { id: u64, color: Rgb },
    /// Read session `id`'s viewport geometry, build the size-query reply
    /// from it, and write it to that session without scrolling.
    RespondSize { id: u64 },
    /// Write these bytes to session `id` without scrolling.
    WriteNoScroll { id: u64, bytes: Vec<u8> },
    /// Pull session `id`'s pending render-relevant state.
    Refresh { id: u64 },
    /// The last tab was closed: tear the window down.
    CloseWindow,
}

/// A single-action result vector.
fn one_action(a: Action) -> (r: Vec<Action>)
    ensures
        r@ == seq![a],
{
    let ghost av = a;
    let mut r: Vec<Action> = Vec::new();
    r.push(a);
    proof {
        assert(r@ =~= seq![av]);
    }
    r
}

/// The control loop's state: the registry, the per-session models, the
/// theme table, and the derived titles.
pub struct Controller {
    registry: Registry,
    sessions: Vec<SessionModel>,
    themes: Vec<Theme>,
    theme_name: String,
    mux_ready: bool,
    header_title: String,
    window_title: String,
}

impl Controller {
    /// The session registry.
    pub closed spec fn spec_registry(&self) -> Registry {
        self.registry
    }

    /// The per-session models, in registry order.
    pub closed spec fn spec_sessions(&self) -> Seq<SessionModelView> {
        self.sessions@.map_values(|s: SessionModel| s@)
    }

    /// The theme table.
    pub closed spec fn spec_themes(&self) -> Seq<ThemeModel> {
        self.themes@.map_values(|t: Theme| t@)
    }

    /// The configured theme name.
    pub closed spec fn spec_theme_name(&self) -> Seq<char> {
        self.theme_name@
    }

    /// Whether the multiplexer's send endpoint has been handed over, so
    /// new sessions can forward their events.
    pub closed spec fn spec_mux_ready(&self) -> bool {
        self.mux_ready
    }

    /// The derived header label.
    pub closed spec fn spec_header(&self) -> Seq<char> {
        self.header_title@
    }

    /// The derived window label.
    pub closed spec fn spec_window(&self) -> Seq<char> {
        self.window_title@
    }

    /// Controller invariant: the registry is well formed and the session
    /// models mirror the registry, id for id, in the same order.
    pub open spec fn wf(&self) -> bool {
        &&& self.spec_registry().wf()
        &&& self.spec_sessions().len() == self.spec_registry()@.len()
        &&& forall|i: int|
            0 <= i < self.spec_sessions().len() ==> self.spec_sessions()[i].id
                == self.spec_registry()@[i].id
    }

    /// The titles are the pure derivation of the current registry state:
    /// header label and window label both follow the active tab's title.
    pub open spec fn titles_derived(&self) -> bool {
        &&& self.spec_header() == spec_header_title(self.spec_registry().spec_active_title())
        &&& self.spec_window() == spec_window_title(self.spec_registry().spec_active_title())
    }

    /// The configuration (themes, theme name, multiplexer readiness) of
    /// `b` is that of `a`.
    pub open spec fn same_config(a: Controller, b: Controller) -> bool {
        &&& b.spec_themes() == a.spec_themes()
        &&& b.spec_theme_name() == a.spec_theme_name()
        &&& b.spec_mux_ready() == a.spec_mux_ready()
    }

    /// The whole observable state of `b` is that of `a`: registry model,
    /// active marker, fresh-id counter, session models and titles.
    pub open spec fn same_state(a: Controller, b: Controller) -> bool {
        &&& b.spec_registry()@ == a.spec_registry()@
        &&& b.spec_registry().spec_active() == a.spec_registry().spec_active()
        &&& b.spec_registry().spec_next_id() == a.spec_registry().spec_next_id()
        &&& b.spec_sessions() == a.spec_sessions()
        &&& b.spec_header() == a.spec_header()
        &&& b.spec_window() == a.spec_window()
    }

    /// The state change and actions of closing session `id`, reached both
    /// from the UI close command and from a session's exit request. The
    /// tie-break of [`Registry::remove`] picks the next active tab; the
    /// caller gets `CloseWindow` exactly when the registry became (or
    /// already was) empty, and the titles are recomputed otherwise.
    pub open spec fn close_transition(
        pre: Controller,
        post: Controller,
        id: u64,
        actions: Seq<Action>,
    ) -> bool {
        let r0 = pre.spec_registry();
        let r1 = post.spec_registry();
        let p = first_index_of(r0.ids(), id);
        &&& r1.spec_next_id() == r0.spec_next_id()
        &&& (!r0.ids().contains(id) ==> {
            &&& r1@ == r0@
            &&& r1.spec_active() == r0.spec_active()
            &&& post.spec_sessions() == pre.spec_sessions()
        })
        &&& (r0.ids().contains(id) ==> {
            &&& r1@ == r0@.remove(p)
            &&& post.spec_sessions() == pre.spec_sessions().remove(p)
            &&& (r0.spec_active() != Some(id) ==> r1.spec_active() == r0.spec_active())
            &&& (r0.spec_active() == Some(id) && r0@.len() == 1 ==> r1.spec_active() is None)
            &&& (r0.spec_active() == Some(id) && r0@.len() > 1 && p > 0 ==> r1.spec_active()
                == Some(r0@[p - 1].id))
            &&& (r0.spec_active() == Some(id) && r0@.len() > 1 && p == 0 ==> r1.spec_active()
                == Some(r0@[1].id))
        })
        &&& (r1@.len() == 0 ==> {
            &&& actions == seq![Action::CloseWindow]
            &&& post.spec_header() == pre.spec_header()
            &&& post.spec_window() == pre.spec_window()
        })
        &&& (r1@.len() > 0 ==> actions == Seq::<Action>::empty() && post.titles_derived())
    }

    /// A controller with no sessions, the given theme table and theme
    /// name, the multiplexer not yet attached, and the placeholder
    /// titles of an empty window.
    pub fn new(themes: Vec<Theme>, theme_name: String) -> (c: Controller)
        ensures
            c.wf(),
            c.spec_registry()@ == Seq::<TabModel>::empty(),
            c.spec_registry().spec_active() is None,
            c.spec_registry().spec_next_id() == 0,
            c.spec_sessions() == Seq::<SessionModelView>::empty(),
            c.spec_themes() == themes@.map_values(|t: Theme| t@),
            c.spec_theme_name() == theme_name@,
            !c.spec_mux_ready(),
            c.titles_derived(),
    {
        let c = Controller {
            registry: Registry::new(),
            sessions: Vec::new(),
            themes,
            theme_name,
            mux_ready: false,
            header_title: String::new(),
            window_title: "COSMIC Terminal".to_owned(),
        };
        proof {
            assert(c.spec_sessions() =~= Seq::<SessionModelView>::empty());
        }
        c
    }

    /// Records that the multiplexer's send endpoint exists, which happens
    /// exactly once during startup; only after this can tabs be opened.
    pub fn attach_multiplexer(&mut self)
        ensures
            final(self).spec_mux_ready(),
            final(self).spec_registry() == old(self).spec_registry(),
            final(self).spec_sessions() == old(self).spec_sessions(),
            final(self).spec_themes() == old(self).spec_themes(),
            final(self).spec_theme_name() == old(self).spec_theme_name(),
            final(self).spec_header() == old(self).spec_header(),
            final(self).spec_window() == old(self).spec_window(),
            old(self).wf() ==> final(self).wf(),
    {
        self.mux_ready = true;
    }

    /// A borrow of the registry, for the presentation layer's reads.
    pub fn registry(&self) -> (r: &Registry)
        ensures
            *r == self.spec_registry(),
    {
        &self.registry
    }

    /// A copy of the derived header label.
    pub fn header_title(&self) -> (t: &String)
        ensures
            t@ == self.spec_header(),
    {
        &self.header_title
    }

    /// A copy of the derived window label.
    pub fn window_title(&self) -> (t: &String)
        ensures
            t@ == self.spec_window(),
    {
        &self.window_title
    }

    /// Recomputes the derived titles from the registry.
    fn recompute_titles(&mut self)
        requires
            old(self).registry.wf(),
        ensures
            final(self).registry == old(self).registry,
            final(self).sessions == old(self).sessions,
            final(self).themes == old(self).themes,
            final(self).theme_name == old(self).theme_name,
            final(self).mux_ready == old(self).mux_ready,
            final(self).titles_derived(),
    {
        match self.registry.active_title() {
            Some(t) => {
                let mut w = t.clone();
                w.append(" — ");
                w.append("COSMIC Terminal");
                self.header_title = t;
                self.window_title = w;
            },
            None => {
                self.header_title = String::new();
                self.window_title = "COSMIC Terminal".to_owned();
            },
        }
    }

    /// Index of the configured theme in the theme table.
    fn find_theme(&self) -> (r: Option<usize>)
        ensures
            match r {
                Some(p) => {
                    &&& p < self.spec_themes().len()
                    &&& self.spec_themes()[p as int].name == self.spec_theme_name()
                    &&& p as int == theme_index_of(self.spec_themes(), self.spec_theme_name())
                },
                None => !spec_has_theme(self.spec_themes(), self.spec_theme_name()),
            },
    {
        let mut i: usize = 0;
        while i < self.themes.len()
            invariant
                i <= self.spec_themes().len(),
                forall|k: int| 0 <= k < i ==> self.spec_themes()[k].name != self.spec_theme_name(),
            decreases self.spec_themes().len() - i,
        {
            if self.themes[i].name == self.theme_name {
                proof {
                    assert(self.spec_themes()[i as int].name == self.spec_theme_name());
                    lemma_theme_index_of(self.spec_themes(), self.spec_theme_name());
                    let p = theme_index_of(self.spec_themes(), self.spec_theme_name());
                    assert(self.spec_themes()[p].name == self.spec_theme_name());
                    assert(p == i as int);
                }
                return Some(i);
            }
            i = i + 1;
        }
        proof {
            lemma_theme_index_of(self.spec_themes(), self.spec_theme_name());
        }
        None
    }

    /// Closes session `id`: removes it from the registry with the
    /// tie-break re-activation, drops its session model, and either asks
    /// for window teardown (registry empty) or recomputes the titles.
    pub fn close_tab(&mut self, id: u64) -> (actions: Vec<Action>)
        requires
            old(self).wf(),
        ensures
            final(self).wf(),
            Controller::same_config(*old(self), *final(self)),
            Controller::close_transition(*old(self), *final(self), id, actions@),
    {
        match self.registry.position(id) {
            Some(p) => {
                let ghost pi = p as int;
                let _ = self.registry.remove(id);
                self.sessions.remove(p);
                proof {
                    assert(self.spec_sessions() =~= old(self).spec_sessions().remove(pi));
                    assert forall|i: int|
                        0 <= i < self.spec_sessions().len() implies self.spec_sessions()[i].id
                        == self.spec_registry()@[i].id by {
                        if i < pi {
                            assert(old(self).spec_sessions()[i].id == old(self).spec_registry()@[i].id);
                        } else {
                            assert(old(self).spec_sessions()[i + 1].id == old(self).spec_registry()@[i + 1].id);
                        }
                    }
                }
                if self.registry.is_empty() {
                    one_action(Action::CloseWindow)
                } else {
                    self.recompute_titles();
                    Vec::new()
                }
            },
            None => {
                if self.registry.is_empty() {
                    one_action(Action::CloseWindow)
                } else {
                    self.recompute_titles();
                    Vec::new()
                }
            },
        }
    }

    /// One step of the control loop on a UI command.
    ///
    /// A new tab is rejected (no state change, no action) while the
    /// multiplexer is not attached or the configured theme is missing;
    /// otherwise it is appended, activated, its palette copied from the
    /// theme, and the caller is asked to spawn the session. Activation of
    /// an absent id is a silent no-op. Closing follows the close
    /// transition shared with a session's exit request.
    pub fn handle_command(&mut self, cmd: UiCommand) -> (actions: Vec<Action>)
        requires
            old(self).wf(),
            old(self).spec_registry().spec_next_id() < u64::MAX,
        ensures
            final(self).wf(),
            Controller::same_config(*old(self), *final(self)),
            match cmd {
                UiCommand::NewTab => {
                    &&& (!old(self).spec_mux_ready() || !spec_has_theme(
                        old(self).spec_themes(),
                        old(self).spec_theme_name(),
                    )) ==> Controller::same_state(*old(self), *final(self)) && actions@
                        == Seq::<Action>::empty()
                    &&& (old(self).spec_mux_ready() && spec_has_theme(
                        old(self).spec_themes(),
                        old(self).spec_theme_name(),
                    )) ==> {
                        let nid = old(self).spec_registry().spec_next_id();
                        &&& final(self).spec_registry()@ == old(self).spec_registry()@.push(
                            TabModel { id: nid, title: spec_default_title(), closable: true },
                        )
                        &&& final(self).spec_registry().spec_active() == Some(nid)
                        &&& final(self).spec_registry().spec_next_id() == nid + 1
                        &&& final(self).spec_sessions() == old(self).spec_sessions().push(
                            SessionModelView {
                                id: nid,
                                palette: spec_theme_palette(
                                    old(self).spec_themes(),
                                    old(self).spec_theme_name(),
                                ),
                            },
                        )
                        &&& final(self).titles_derived()
                        &&& actions@ == seq![Action::CreateSession { id: nid }]
                    }
                },
                UiCommand::Activate { id } => {
                    &&& final(self).spec_registry()@ == old(self).spec_registry()@
                    &&& final(self).spec_registry().spec_next_id() == old(self).spec_registry().spec_next_id()
                    &&& final(self).spec_sessions() == old(self).spec_sessions()
                    &&& (old(self).spec_registry().ids().contains(id) ==> final(self).spec_registry().spec_active() == Some(id))
                    &&& (!old(self).spec_registry().ids().contains(id) ==> final(self).spec_registry().spec_active() == old(self).spec_registry().spec_active())
                    &&& final(self).titles_derived()
                    &&& actions@ == Seq::<Action>::empty()
                },
                UiCommand::Close { id } => Controller::close_transition(
                    *old(self),
                    *final(self),
                    id,
                    actions@,
                ),
            },
    {
        match cmd {
            UiCommand::NewTab => {
                if !self.mux_ready {
                    return Vec::new();
                }
                match self.find_theme() {
                    None => Vec::new(),
                    Some(t) => {
                        let pal = self.themes[t].palette.clone();
                        let id = self.registry.insert(default_title());
                        self.sessions.push(SessionModel { id, palette: pal });
                        proof {
                            assert(self.spec_sessions() =~= old(self).spec_sessions().push(
                                SessionModelView {
                                    id: id,
                                    palette: spec_theme_palette(
                                        old(self).spec_themes(),
                                        old(self).spec_theme_name(),
                                    ),
                                },
                            ));
                        }
                        self.recompute_titles();
                        one_action(Action::CreateSession { id })
                    },
                }
            },
            UiCommand::Activate { id } => {
                self.registry.activate(id);
                self.recompute_titles();
                Vec::new()
            },
            UiCommand::Close { id } => self.close_tab(id),
        }
    }

    /// One step of the control loop on an event that session `id`
    /// emitted.
    ///
    /// Queries are answered with exactly one reply action naming the
    /// same session — and none to any other session; a stale event, one
    /// whose session has already been removed, changes nothing and is
    /// not an error. Title events settle the display title and recompute
    /// the derived labels; an exit request closes the tab exactly as the
    /// UI close command does; unrecognized events are ignored, never
    /// fatal.
    pub fn handle_event(&mut self, id: u64, event: SessionEvent) -> (actions: Vec<Action>)
        requires
            old(self).wf(),
        ensures
            final(self).wf(),
            Controller::same_config(*old(self), *final(self)),
            match event {
                SessionEvent::Bell => Controller::same_state(*old(self), *final(self)) && actions@
                    == Seq::<Action>::empty(),
                SessionEvent::Unrecognized => Controller::same_state(*old(self), *final(self))
                    && actions@ == Seq::<Action>::empty(),
                SessionEvent::ColorQuery { index } => {
                    &&& Controller::same_state(*old(self), *final(self))
                    &&& (old(self).spec_registry().ids().contains(id) ==> actions@ == seq![
                        Action::RespondColor {
                            id: id,
                            color: spec_resolve(
                                old(self).spec_sessions()[first_index_of(
                                    old(self).spec_registry().ids(),
                                    id,
                                )].palette,
                                index as int,
                            ),
                        },
                    ])
                    &&& (!old(self).spec_registry().ids().contains(id) ==> actions@
                        == Seq::<Action>::empty())
                },
                SessionEvent::SizeQuery => {
                    &&& Controller::same_state(*old(self), *final(self))
                    &&& (old(self).spec_registry().ids().contains(id) ==> actions@ == seq![
                        Action::RespondSize { id: id },
                    ])
                    &&& (!old(self).spec_registry().ids().contains(id) ==> actions@
                        == Seq::<Action>::empty())
                },
                SessionEvent::RawWrite { bytes } => {
                    &&& Controller::same_state(*old(self), *final(self))
                    &&& (old(self).spec_registry().ids().contains(id) ==> {
                        &&& actions@.len() == 1
                        &&& actions@[0] matches Action::WriteNoScroll { id: aid, bytes: ab }
                            && aid == id && ab@ == bytes@
                    })
                    &&& (!old(self).spec_registry().ids().contains(id) ==> actions@
                        == Seq::<Action>::empty())
                },
                SessionEvent::RedrawNeeded => {
                    &&& Controller::same_state(*old(self), *final(self))
                    &&& (old(self).spec_registry().ids().contains(id) ==> actions@ == seq![
                        Action::Refresh { id: id },
                    ])
                    &&& (!old(self).spec_registry().ids().contains(id) ==> actions@
                        == Seq::<Action>::empty())
                },
                SessionEvent::ExitRequested => Controller::close_transition(
                    *old(self),
                    *final(self),
                    id,
                    actions@,
                ),
                SessionEvent::TitleReset => {
                    &&& final(self).spec_registry()@ == spec_rename(
                        old(self).spec_registry()@,
                        id,
                        spec_default_title(),
                    )
                    &&& final(self).spec_registry().spec_active() == old(self).spec_registry().spec_active()
                    &&& final(self).spec_registry().spec_next_id() == old(self).spec_registry().spec_next_id()
                    &&& final(self).spec_sessions() == old(self).spec_sessions()
                    &&& final(self).titles_derived()
                    &&& actions@ == Seq::<Action>::empty()
                },
                SessionEvent::TitleChanged { text } => {
                    &&& final(self).spec_registry()@ == spec_rename(
                        old(self).spec_registry()@,
                        id,
                        text@,
                    )
                    &&& final(self).spec_registry().spec_active() == old(self).spec_registry().spec_active()
                    &&& final(self).spec_registry().spec_next_id() == old(self).spec_registry().spec_next_id()
                    &&& final(self).spec_sessions() == old(self).spec_sessions()
                    &&& final(self).titles_derived()
                    &&& actions@ == Seq::<Action>::empty()
                },
            },
    {
        match event {
            SessionEvent::Bell => Vec::new(),
            SessionEvent::Unrecognized => Vec::new(),
            SessionEvent::ColorQuery { index } => {
                match self.registry.position(id) {
                    Some(p) => {
                        let color = self.sessions[p].palette.resolve(index);
                        one_action(Action::RespondColor { id, color })
                    },
                    None => Vec::new(),
                }
            },
            SessionEvent::SizeQuery => {
                if self.registry.contains(id) {
                    one_action(Action::RespondSize { id })
                } else {
                    Vec::new()
                }
            },
            SessionEvent::RawWrite { bytes } => {
                if self.registry.contains(id) {
                    one_action(Action::WriteNoScroll { id, bytes })
                } else {
                    Vec::new()
                }
            },
            SessionEvent::RedrawNeeded => {
                if self.registry.contains(id) {
                    one_action(Action::Refresh { id })
                } else {
                    Vec::new()
                }
            },
            SessionEvent::ExitRequested => self.close_tab(id),
            SessionEvent::TitleReset => {
                self.registry.rename(id, default_title());
                proof {
                    assert forall|i: int|
                        0 <= i < self.spec_sessions().len() implies self.spec_sessions()[i].id
                        == self.spec_registry()@[i].id by {
                        assert(old(self).spec_sessions()[i].id == old(self).spec_registry()@[i].id);
                        assert(self.spec_registry()@[i].id == old(self).spec_registry()@[i].id);
                    }
                }
                self.recompute_titles();
                Vec::new()
            },
            SessionEvent::TitleChanged { text } => {
                self.registry.rename(id, text);
                proof {
                    assert forall|i: int|
                        0 <= i < self.spec_sessions().len() implies self.spec_sessions()[i].id
                        == self.spec_registry()@[i].id by {
                        assert(old(self).spec_sessions()[i].id == old(self).spec_registry()@[i].id);
                        assert(self.spec_registry()@[i].id == old(self).spec_registry()@[i].id);
                    }
                }
                self.recompute_titles();
                Vec::new()
            },
        }
    }
}

} // verus!
