//! The overlay client's elements: the registry of templates, the elements a
//! server asked for, and the player's approvals, which decide whether an
//! element a server asks for is shown at once or waits for the player.

use vstd::prelude::*;
use crate::address::{IpAddress, PeerAddr};
use crate::keyed_map::{KeyedMap, MapKey};
use crate::templates::{TemplateId, TemplateKind, template_id_text};
use crate::messages::ElementState;
use crate::json::{json_empty_object, json_insert, json_string, spec_json_field_is_null, spec_json_member, spec_json_string};
use crate::ids::next_id;
use crate::game::{PlayerInfo, PlayerTeam, TeamConfig, TeamShow};
use crate::clock::instant_now;

verus! {

/// An element: a template shown with a state.
#[derive(Debug)]
pub struct Element {
    pub id: String,
    pub template: TemplateKind,
    pub state: ElementState,
}

pub struct ElementView {
    pub id: Seq<char>,
    pub template: TemplateKind,
    pub state: ElementState,
}

impl View for Element {
    type V = ElementView;

    open spec fn view(&self) -> ElementView {
        ElementView { id: self.id@, template: self.template, state: self.state }
    }
}

impl Element {
    /// An element with a fresh random id.
    pub fn temp(template: TemplateKind, state: ElementState) -> (r: Element)
        ensures
            r.template == template,
            r.state == state,
            r.id@.len() == 36,
    {
        Element::with_id(next_id(), template, state)
    }

    pub fn with_id(id: String, template: TemplateKind, state: ElementState) -> (r: Element)
        ensures
            r.id == id,
            r.template == template,
            r.state == state,
    {
        Element { id, template, state }
    }
}

/// The templates an overlay knows, by full id (such as
/// `overlay:list_players`). The template `overlay:invalid` is always there.
pub struct Registry {
    templates: KeyedMap<String, TemplateKind>,
}

impl View for Registry {
    type V = Map<Seq<char>, TemplateKind>;

    closed spec fn view(&self) -> Map<Seq<char>, TemplateKind> {
        self.templates@
    }
}

impl Registry {
    pub closed spec fn wf(&self) -> bool {
        &&& self.templates.wf()
        &&& self@.contains_key("overlay:invalid"@)
    }

    /// A registry that knows only `overlay:invalid`.
    pub fn new() -> (r: Registry)
        ensures
            r.wf(),
            r@ == Map::<Seq<char>, TemplateKind>::empty().insert("overlay:invalid"@, TemplateKind::Invalid),
    {
        let mut s = Registry { templates: KeyedMap::new() };
        s.templates.insert(String::from_str("overlay:invalid"), TemplateKind::Invalid);
        s
    }

    /// Registers a new template
    /// full_id: should be namespaced, such as overlay:my_template
    pub fn register(&mut self, full_id: &str, template: TemplateKind)
        requires
            old(self).wf(),
        ensures
            final(self).wf(),
            final(self)@ == old(self)@.insert(full_id@, template),
    {
        self.templates.insert(String::from_str(full_id), template);
    }

    /// Get a template by its id.
    pub fn get(&self, id: &TemplateId) -> (r: Option<TemplateKind>)
        requires
            self.wf(),
        ensures
            r == (if self@.contains_key(template_id_text(*id)) {
                Some(self@[template_id_text(*id)])
            } else {
                None
            }),
    {
        let key = id.to_text();
        match self.templates.get(&key) {
            Some(t) => Some(*t),
            None => None,
        }
    }

    /// Get a template by full id
    pub fn get_2(&self, id: &str) -> (r: Option<TemplateKind>)
        requires
            self.wf(),
        ensures
            r == (if self@.contains_key(id@) {
                Some(self@[id@])
            } else {
                None
            }),
    {
        let key = String::from_str(id);
        match self.templates.get(&key) {
            Some(t) => Some(*t),
            None => None,
        }
    }

    pub fn has(&self, id: &str) -> (r: bool)
        requires
            self.wf(),
        ensures
            r == self@.contains_key(id@),
    {
        let key = String::from_str(id);
        self.templates.contains_key(&key)
    }

    /// Creates a new temporary element from a template id
    pub fn temp(&self, template_id: &str, state: ElementState) -> (r: Option<Element>)
        requires
            self.wf(),
        ensures
            match r {
                Some(e) => self@.contains_key(template_id@) && e.template == self@[template_id@]
                    && e.state == state && e.id@.len() == 36,
                None => !self@.contains_key(template_id@),
            },
    {
        match self.get_2(template_id) {
            Some(t) => Some(Element::temp(t, state)),
            None => None,
        }
    }

    /// Creates a new temporary element from a template id, falling back on
    /// `overlay:invalid` (with the state `{"template": template_id}`) if no
    /// template has that id.
    pub fn try_temp(&self, template_id: &str, state: ElementState) -> (r: Element)
        requires
            self.wf(),
        ensures
            self@.contains_key(template_id@) ==> r.template == self@[template_id@] && r.state == state,
            !self@.contains_key(template_id@) ==> r.template == self@["overlay:invalid"@]
                && invalid_state(r.state, template_id@),
            r.id@.len() == 36,
    {
        let fallback = self.invalid(template_id);
        match self.temp(template_id, state) {
            Some(e) => e,
            None => fallback,
        }
    }

    /// Creates an element with a fixed id
    pub fn named(&self, template_id: &str, id: String, state: ElementState) -> (r: Option<Element>)
        requires
            self.wf(),
        ensures
            match r {
                Some(e) => self@.contains_key(template_id@) && e.template == self@[template_id@]
                    && e.state == state && e.id == id,
                None => !self@.contains_key(template_id@),
            },
    {
        match self.get_2(template_id) {
            Some(t) => Some(Element::with_id(id, t, state)),
            None => None,
        }
    }

    /// An element of the template `overlay:invalid`, whose state names the
    /// template that was asked for.
    pub fn invalid(&self, id: &str) -> (r: Element)
        requires
            self.wf(),
        ensures
            r.template == self@["overlay:invalid"@],
            invalid_state(r.state, id@),
            r.id@.len() == 36,
    {
        let t = self.get_2("overlay:invalid").unwrap();
        let mut state = json_empty_object();
        json_insert(&mut state, "template", json_string(id));
        proof {
            assert forall|k: Seq<char>| #[trigger] spec_json_field_is_null(state, k) <==> k != "template"@ by {
                if k != "template"@ {
                } else {
                }
            }
        }
        Element::temp(t, state)
    }
}

/// The state of an element of `overlay:invalid` that stands for the template
/// `template_id`: the object `{"template": template_id}`, whose only member
/// is `template`.
pub open spec fn invalid_state(v: ElementState, template_id: Seq<char>) -> bool {
    &&& spec_json_member(v, "template"@) == spec_json_string(template_id)
    &&& forall|k: Seq<char>| #[trigger] spec_json_field_is_null(v, k) <==> k != "template"@
}

/// Whether an element may be shown, and the state to show it with.
#[derive(Debug)]
pub struct ApproveEntry {
    /// Is this element enabled?
    pub enabled: bool,
    /// The template ID the requested elem has. Must match for requests
    pub template_id: String,
    /// The state to use for a pending approval
    pub state: Option<ElementState>,
}

pub struct ApprovalView {
    pub enabled: bool,
    pub template_id: Seq<char>,
    pub state: Option<ElementState>,
}

impl View for ApproveEntry {
    type V = ApprovalView;

    open spec fn view(&self) -> ApprovalView {
        ApprovalView { enabled: self.enabled, template_id: self.template_id@, state: self.state }
    }
}

/// The approvals of elements per server, by server address and element id;
/// this is what is kept between restarts.
pub struct OverlayStorage {
    approved_elems_ids: KeyedMap<PeerAddr, KeyedMap<String, ApproveEntry>>,
}

/// Approvals per server address, per element id.
pub type ApprovalsView = Map<(IpAddress, u16), Map<Seq<char>, ApprovalView>>;

impl View for OverlayStorage {
    type V = ApprovalsView;

    closed spec fn view(&self) -> ApprovalsView {
        self.approved_elems_ids@.map_values(
            |m: KeyedMap<String, ApproveEntry>| m@.map_values(|e: ApproveEntry| e@),
        )
    }
}

/// The approvals of one server, none when it has no list yet.
pub open spec fn approvals_of(a: ApprovalsView, addr: (IpAddress, u16)) -> Map<Seq<char>, ApprovalView> {
    if a.contains_key(addr) {
        a[addr]
    } else {
        Map::empty()
    }
}

impl OverlayStorage {
    pub closed spec fn wf(&self) -> bool {
        &&& self.approved_elems_ids.wf()
        &&& forall|k: (IpAddress, u16)| #[trigger]
            self.approved_elems_ids@.contains_key(k) ==> self.approved_elems_ids@[k].wf()
    }

    /// No approvals.
    pub fn new() -> (r: OverlayStorage)
        ensures
            r.wf(),
            r@ == ApprovalsView::empty(),
    {
        let r = OverlayStorage { approved_elems_ids: KeyedMap::new() };
        assert(r@ =~= ApprovalsView::empty());
        r
    }

    /// Makes sure the server at `ip_addr` has a list of approvals (an empty
    /// one if it had none).
    pub fn approved_elems(&mut self, ip_addr: &PeerAddr)
        requires
            old(self).wf(),
        ensures
            final(self).wf(),
            final(self)@ == old(self)@.insert(ip_addr.model(), approvals_of(old(self)@, ip_addr.model())),
    {
        if !self.approved_elems_ids.contains_key(ip_addr) {
            let m: KeyedMap<String, ApproveEntry> = KeyedMap::new();
            assert(m@.map_values(|e: ApproveEntry| e@) =~= Map::<Seq<char>, ApprovalView>::empty());
            self.approved_elems_ids.insert(ip_addr.duplicate(), m);
            proof {
                assert(self@ =~= old(self)@.insert(ip_addr.model(), Map::empty()));
            }
        } else {
            proof {
                assert(self@ =~= old(self)@.insert(ip_addr.model(), old(self)@[ip_addr.model()]));
            }
        }
    }

    /// The approval of element `elem_id` on the server at `addr`.
    pub fn approval(&self, addr: &PeerAddr, elem_id: &str) -> (r: Option<&ApproveEntry>)
        requires
            self.wf(),
        ensures
            match r {
                Some(e) => approvals_of(self@, addr.model()).contains_key(elem_id@) && e@
                    == approvals_of(self@, addr.model())[elem_id@],
                None => !approvals_of(self@, addr.model()).contains_key(elem_id@),
            },
    {
        match self.approved_elems_ids.get(addr) {
            Some(list) => {
                let key = String::from_str(elem_id);
                list.get(&key)
            },
            None => None,
        }
    }

    /// The ids of the elements the server at `addr` has approvals for.
    pub fn element_ids(&self, addr: &PeerAddr) -> (r: Vec<String>)
        requires
            self.wf(),
        ensures
            r@.map_values(|s: String| s@).to_set() == approvals_of(self@, addr.model()).dom(),
    {
        match self.approved_elems_ids.get(addr) {
            Some(list) => {
                let r = list.keys();
                proof {
                    list.lemma_keys_dom();
                    assert(r@.map_values(|s: String| s@) =~= crate::keyed_map::key_models(r@));
                }
                r
            },
            None => {
                let r: Vec<String> = Vec::new();
                assert(r@.map_values(|s: String| s@).to_set() =~= Set::<Seq<char>>::empty());
                r
            },
        }
    }

    /// The addresses of the servers with a list of approvals.
    pub fn servers(&self) -> (r: Vec<PeerAddr>)
        requires
            self.wf(),
        ensures
            r@.map_values(|p: PeerAddr| p.model()).to_set() == self@.dom(),
    {
        let r = self.approved_elems_ids.keys();
        proof {
            self.approved_elems_ids.lemma_keys_dom();
            assert(r@.map_values(|p: PeerAddr| p.model()) =~= crate::keyed_map::key_models(r@));
            assert(self@.dom() =~= self.approved_elems_ids@.dom());
        }
        r
    }

    /// Stores the approval of element `elem_id` on the server at `addr`,
    /// replacing the one it had.
    pub fn set_approval(&mut self, addr: &PeerAddr, elem_id: String, entry: ApproveEntry)
        requires
            old(self).wf(),
        ensures
            final(self).wf(),
            final(self)@ == old(self)@.insert(
                addr.model(),
                approvals_of(old(self)@, addr.model()).insert(elem_id@, entry@),
            ),
    {
        let ghost e = entry@;
        let mut list = match self.approved_elems_ids.remove(addr) {
            Some(l) => l,
            None => KeyedMap::new(),
        };
        proof {
            assert(list@.map_values(|e: ApproveEntry| e@) =~= approvals_of(old(self)@, addr.model()));
        }
        let ghost before = list@;
        let ghost k = elem_id@;
        list.insert(elem_id, entry);
        assert(list@.map_values(|e: ApproveEntry| e@) =~= approvals_of(old(self)@, addr.model()).insert(
            k,
            e,
        ));
        self.approved_elems_ids.insert(addr.duplicate(), list);
        proof {
            assert(self@ =~= old(self)@.insert(
                addr.model(),
                approvals_of(old(self)@, addr.model()).insert(elem_id@, e),
            ));
        }
    }

    /// Takes the approval of element `elem_id` on the server at `addr` out of
    /// the list, which stays (possibly empty).
    fn take_approval(&mut self, addr: &PeerAddr, elem_id: &String) -> (r: Option<ApproveEntry>)
        requires
            old(self).wf(),
        ensures
            final(self).wf(),
            final(self)@ == old(self)@.insert(
                addr.model(),
                approvals_of(old(self)@, addr.model()).remove(elem_id@),
            ),
            match r {
                Some(e) => approvals_of(old(self)@, addr.model()).contains_key(elem_id@) && e@
                    == approvals_of(old(self)@, addr.model())[elem_id@],
                None => !approvals_of(old(self)@, addr.model()).contains_key(elem_id@),
            },
    {
        let mut list = match self.approved_elems_ids.remove(addr) {
            Some(l) => l,
            None => KeyedMap::new(),
        };
        proof {
            assert(list@.map_values(|e: ApproveEntry| e@) =~= approvals_of(old(self)@, addr.model()));
        }
        let r = list.remove(elem_id);
        assert(list@.map_values(|e: ApproveEntry| e@) =~= approvals_of(old(self)@, addr.model()).remove(
            elem_id@,
        ));
        self.approved_elems_ids.insert(addr.duplicate(), list);
        proof {
            assert(self@ =~= old(self)@.insert(
                addr.model(),
                approvals_of(old(self)@, addr.model()).remove(elem_id@),
            ));
        }
        r
    }
}

/// Which parts of the overlay are showing.
#[derive(Clone, Copy, Debug, PartialEq, Eq, Structural)]
pub enum UIState {
    /// Game not active, UI not running
    Inactive,
    /// Game active, UI is shown
    Active,
    /// Detail view active, extra UI is shown
    DetailActive,
}

/// The state the overlay switches to when the player presses the toggle key.
pub open spec fn toggled(s: UIState) -> UIState {
    if s == UIState::DetailActive {
        UIState::Active
    } else {
        UIState::DetailActive
    }
}

#[derive(Clone, Copy, Debug, PartialEq, Eq, Structural)]
pub enum MessageType {
    Normal,
    Info,
    Success,
    Error,
    Warning,
}

/// A notification shown to the player.
#[derive(Debug)]
pub struct Message {
    pub created_at: std::time::Instant,
    pub kind: MessageType,
    pub title: Option<String>,
    pub content: String,
}

pub open spec fn opt_text(t: Option<String>) -> Option<Seq<char>> {
    match t {
        Some(s) => Some(s@),
        None => None,
    }
}

/// A notification as plain values: kind, title and text.
pub open spec fn message_view(m: Message) -> (MessageType, Option<Seq<char>>, Seq<char>) {
    (m.kind, opt_text(m.title), m.content@)
}

/// The server the overlay's player is on.
#[derive(Debug)]
pub struct ServerInfo {
    pub name: String,
    pub ip_addr: PeerAddr,
    pub players: Vec<PlayerInfo>,
    pub my_player: PlayerInfo,
    pub teams: Vec<TeamConfig>,
}

impl ServerInfo {
    pub fn get_team_config(&self, team: &PlayerTeam) -> (r: Option<&TeamConfig>)
        ensures
            match r {
                Some(c) => team.0 < self.teams@.len() && *c == self.teams@[team.0 as int],
                None => team.0 >= self.teams@.len(),
            },
    {
        let i = team.0 as usize;
        if i < self.teams.len() {
            Some(&self.teams[i])
        } else {
            None
        }
    }

    pub fn get_team_config_name(&self, team: &PlayerTeam) -> (r: Option<&str>)
        ensures
            match r {
                Some(n) => team.0 < self.teams@.len() && n@ == self.teams@[team.0 as int].name@,
                None => team.0 >= self.teams@.len(),
            },
    {
        match self.get_team_config(team) {
            Some(c) => Some(c.name.as_str()),
            None => None,
        }
    }
}

/// The abstract state of the overlay's elements.
pub struct OverlayView {
    /// The address of the server the player is on.
    pub server: Option<(IpAddress, u16)>,
    pub templates: Map<Seq<char>, TemplateKind>,
    /// Shown elements, by element id.
    pub elements: Map<Seq<char>, ElementView>,
    pub approvals: ApprovalsView,
    pub ui_state: UIState,
    /// The notifications shown to the player, oldest first: kind, title
    /// and text.
    pub messages: Seq<(MessageType, Option<Seq<char>>, Seq<char>)>,
}

/// The text of the error for a request whose template differs from the one
/// the element was approved with.
pub open spec fn mismatch_text(requested: Seq<char>, registered: Seq<char>) -> Seq<char> {
    "Requested template ("@ + requested + ") does not match registered template ("@ + registered
        + ")"@
}

/// Element `id` of template `template_id` is approved on the current server:
/// a request for it shows it at once.
pub open spec fn approved_for(v: OverlayView, template_id: Seq<char>, id: Seq<char>) -> bool {
    &&& v.templates.contains_key(template_id)
    &&& v.server matches Some(a) && approvals_of(v.approvals, a).contains_key(id)
        && approvals_of(v.approvals, a)[id].template_id == template_id
        && approvals_of(v.approvals, a)[id].enabled
}

/// Switching element `elem_id` on is only asked for when its template is
/// registered (showing it needs the template).
pub open spec fn enabling_is_possible(v: OverlayView, elem_id: Seq<char>, enabled: bool) -> bool {
    match v.server {
        Some(a) => {
            let list = approvals_of(v.approvals, a);
            (list.contains_key(elem_id) && enabled && !list[elem_id].enabled) ==> v.templates.contains_key(
                list[elem_id].template_id,
            )
        },
        None => true,
    }
}

/// The overlay's elements and what decides them.
pub struct OverlayData {
    /// The process id of the game the overlay is shown over.
    target_pid: u32,
    server: Option<ServerInfo>,
    elements: KeyedMap<String, Element>,
    registry: Registry,
    store: OverlayStorage,
    ui_state: UIState,
    messages: Vec<Message>,
}

impl View for OverlayData {
    type V = OverlayView;

    closed spec fn view(&self) -> OverlayView {
        OverlayView {
            server: match self.server {
                Some(s) => Some(s.ip_addr.model()),
                None => None,
            },
            templates: self.registry@,
            elements: self.elements@.map_values(|e: Element| e@),
            approvals: self.store@,
            ui_state: self.ui_state,
            messages: self.messages@.map_values(|m: Message| message_view(m)),
        }
    }
}

impl OverlayData {
    pub closed spec fn wf(&self) -> bool {
        &&& self.elements.wf()
        &&& self.registry.wf()
        &&& self.store.wf()
    }

    /// The server the player is on, as the overlay holds it.
    pub closed spec fn spec_server(&self) -> Option<ServerInfo> {
        self.server
    }

    pub closed spec fn spec_target_pid(&self) -> u32 {
        self.target_pid
    }

    /// The process id of the game the overlay is shown over.
    pub fn target_pid(&self) -> (r: u32)
        ensures
            r == self.spec_target_pid(),
    {
        self.target_pid
    }

    pub fn new(server: Option<ServerInfo>, registry: Registry, store: OverlayStorage, target_pid: u32) -> (r: OverlayData)
        requires
            registry.wf(),
            store.wf(),
        ensures
            r.wf(),
            r.spec_target_pid() == target_pid,
            r.spec_server() == server,
            r@.server == (match server {
                Some(s) => Some(s.ip_addr.model()),
                None => None::<(IpAddress, u16)>,
            }),
            r@.templates == registry@,
            r@.elements == Map::<Seq<char>, ElementView>::empty(),
            r@.approvals == store@,
            r@.ui_state == UIState::Inactive,
            r@.messages == Seq::<(MessageType, Option<Seq<char>>, Seq<char>)>::empty(),
    {
        let r = OverlayData {
            target_pid,
            server,
            elements: KeyedMap::new(),
            registry,
            store,
            ui_state: UIState::Inactive,
            messages: Vec::new(),
        };
        assert(r@.elements =~= Map::<Seq<char>, ElementView>::empty());
        r
    }

    pub fn server(&self) -> (r: Option<&ServerInfo>)
        ensures
            match r {
                Some(s) => self@.server == Some(s.ip_addr.model()) && self.spec_server() == Some(*s),
                None => self@.server is None && self.spec_server() is None,
            },
    {
        self.server.as_ref()
    }

    /// The address of the server the player is on.
    pub fn server_id(&self) -> (r: Option<PeerAddr>)
        ensures
            match r {
                Some(a) => self@.server == Some(a.model()),
                None => self@.server is None,
            },
    {
        match &self.server {
            Some(s) => Some(s.ip_addr.duplicate()),
            None => None,
        }
    }

    pub fn registry(&self) -> (r: &Registry)
        requires
            self.wf(),
        ensures
            r.wf(),
            r@ == self@.templates,
    {
        &self.registry
    }

    pub fn store(&self) -> (r: &OverlayStorage)
        requires
            self.wf(),
        ensures
            r.wf(),
            r@ == self@.approvals,
    {
        &self.store
    }

    pub fn element(&self, id: &str) -> (r: Option<&Element>)
        requires
            self.wf(),
        ensures
            match r {
                Some(e) => self@.elements.contains_key(id@) && e@ == self@.elements[id@],
                None => !self@.elements.contains_key(id@),
            },
    {
        let key = String::from_str(id);
        self.elements.get(&key)
    }

    pub fn ui_state(&self) -> (r: UIState)
        ensures
            r == self@.ui_state,
    {
        self.ui_state
    }

    /// The notifications shown to the player, oldest first.
    pub fn messages(&self) -> (r: &Vec<Message>)
        ensures
            r@.map_values(|m: Message| message_view(m)) == self@.messages,
    {
        &self.messages
    }

    /// Adds a notification.
    pub fn notify(&mut self, kind: MessageType, title: Option<String>, content: String)
        ensures
            final(self).spec_server() == old(self).spec_server(),
            final(self).spec_target_pid() == old(self).spec_target_pid(),
            final(self)@ == (OverlayView {
                messages: old(self)@.messages.push((kind, opt_text(title), content@)),
                ..old(self)@
            }),
            final(self).wf() == old(self).wf(),
    {
        let msg = Message { created_at: instant_now(), kind, title, content };
        let ghost before = self.messages@;
        let ghost mv = message_view(msg);
        self.messages.push(msg);
        proof {
            assert(self.messages@.map_values(|m: Message| message_view(m)) =~= before.map_values(
                |m: Message| message_view(m),
            ).push(mv));
        }
    }

    /// The approvals were saved after the player changed them, with
    /// `result`: a failed save is told to the player as an error titled
    /// "Saving failed", with the error's text.
    pub fn approvals_saved(&mut self, result: Result<(), String>)
        ensures
            final(self).spec_server() == old(self).spec_server(),
            final(self).spec_target_pid() == old(self).spec_target_pid(),
            final(self).wf() == old(self).wf(),
            match result {
                Ok(()) => final(self)@ == old(self)@,
                Err(e) => final(self)@ == (OverlayView {
                    messages: old(self)@.messages.push((MessageType::Error, Some("Saving failed"@), e@)),
                    ..old(self)@
                }),
            },
    {
        match result {
            Ok(()) => {},
            Err(e) => {
                let title = String::from_str("Saving failed");
                self.notify(MessageType::Error, Some(title), e);
            },
        }
    }

    /// The player pressed the toggle key: the detail view closes if it is
    /// open and opens otherwise.
    pub fn toggle_ui_state(&mut self)
        ensures
            final(self).spec_server() == old(self).spec_server(),
            final(self).spec_target_pid() == old(self).spec_target_pid(),
            final(self)@ == (OverlayView { ui_state: toggled(old(self)@.ui_state), ..old(self)@ }),
            final(self).wf() == old(self).wf(),
    {
        if self.ui_state == UIState::DetailActive {
            self.ui_state = UIState::Active;
        } else {
            self.ui_state = UIState::DetailActive;
        }
    }

    /// Shows an element of the registered template `template_id`, with
    /// `state`, or `{}` when there is none.
    pub fn spawn_elem(&mut self, template_id: &str, id: String, state: Option<ElementState>)
        requires
            old(self).wf(),
            old(self)@.templates.contains_key(template_id@),
        ensures
            final(self).spec_server() == old(self).spec_server(),
            final(self).spec_target_pid() == old(self).spec_target_pid(),
            final(self).wf(),
            final(self)@ == (OverlayView {
                elements: old(self)@.elements.insert(id@, final(self)@.elements[id@]),
                ..old(self)@
            }),
            final(self)@.elements[id@].id == id@,
            final(self)@.elements[id@].template == old(self)@.templates[template_id@],
            match state {
                Some(s) => final(self)@.elements[id@].state == s,
                None => forall|k: Seq<char>|
                    #[trigger] spec_json_field_is_null(final(self)@.elements[id@].state, k),
            },
    {
        let state = match state {
            Some(s) => s,
            None => json_empty_object(),
        };
        let key = id.clone();
        let elem = self.registry.named(template_id, id, state).unwrap();
        self.elements.insert(key, elem);
        proof {
            assert(self@.elements =~= old(self)@.elements.insert(id@, self@.elements[id@]));
        }
    }

    /// A server asks to show element `id` of template `template_id` with
    /// `state`. The first request for an element on a server is stored as
    /// waiting for the player's approval, with its state; once the player has
    /// approved it, the next request shows it at once (with the stored
    /// state). Tells whether the element is approved.
    pub fn request_elem(&mut self, template_id: &str, id: &str, state: ElementState) -> (r: Result<bool, String>)
        requires
            old(self).wf(),
        ensures
            final(self).spec_server() == old(self).spec_server(),
            final(self).spec_target_pid() == old(self).spec_target_pid(),
            final(self).wf(),
            (r == Ok::<bool, String>(true)) == approved_for(old(self)@, template_id@, id@),
            ({
                let v = old(self)@;
                if !v.templates.contains_key(template_id@) {
                    r matches Err(e) && e@ == "Template not registered"@ && final(self)@ == v
                } else if v.server is None {
                    r matches Err(e) && e@ == "Not connected to any server"@ && final(self)@ == v
                } else {
                    let a = v.server->0;
                    let list = approvals_of(v.approvals, a);
                    let entry = if list.contains_key(id@) {
                        list[id@]
                    } else {
                        ApprovalView { enabled: false, template_id: template_id@, state: Some(state) }
                    };
                    if entry.template_id != template_id@ {
                        &&& r matches Err(e) && e@ == mismatch_text(template_id@, entry.template_id)
                        &&& final(self)@ == (OverlayView {
                            approvals: v.approvals.insert(a, list.insert(id@, entry)),
                            ..v
                        })
                    } else if !entry.enabled {
                        &&& r == Ok::<bool, String>(false)
                        &&& final(self)@ == (OverlayView {
                            approvals: v.approvals.insert(a, list.insert(id@, entry)),
                            ..v
                        })
                    } else {
                        &&& r == Ok::<bool, String>(true)
                        &&& final(self)@ == (OverlayView {
                            approvals: v.approvals.insert(
                                a,
                                list.insert(id@, ApprovalView { state: None, ..entry }),
                            ),
                            elements: v.elements.insert(id@, final(self)@.elements[id@]),
                            ..v
                        })
                        &&& final(self)@.elements[id@].id == id@
                        &&& final(self)@.elements[id@].template == v.templates[template_id@]
                        &&& match entry.state {
                            Some(s) => final(self)@.elements[id@].state == s,
                            None => forall|k: Seq<char>|
                                #[trigger] spec_json_field_is_null(final(self)@.elements[id@].state, k),
                        }
                    }
                }
            }),
    {
        if !self.registry.has(template_id) {
            return Err(String::from_str("Template not registered"));
        }
        let addr = match &self.server {
            None => {
                return Err(String::from_str("Not connected to any server"));
            },
            Some(s) => s.ip_addr.duplicate(),
        };
        let ghost v = self@;
        let key = String::from_str(id);
        let taken = self.store.take_approval(&addr, &key);
        let entry = match taken {
            Some(e) => e,
            None => ApproveEntry { enabled: false, template_id: String::from_str(template_id), state: Some(state) },
        };
        let ghost e0 = entry@;
        proof {
            assert(approvals_of(v.approvals, addr.model()).remove(id@).insert(id@, e0)
                =~= approvals_of(v.approvals, addr.model()).insert(id@, e0));
        }
        if entry.template_id != String::from_str(template_id) {
            let msg = String::from_str("Requested template (").concat(template_id).concat(
                ") does not match registered template (",
            ).concat(entry.template_id.as_str()).concat(")");
            self.store.set_approval(&addr, key, entry);
            proof {
                assert(self.store@ =~= v.approvals.insert(
                    addr.model(),
                    approvals_of(v.approvals, addr.model()).insert(id@, e0),
                ));
            }
            return Err(msg);
        }
        let ApproveEntry { enabled, template_id: tid, state: stored } = entry;
        if enabled {
            self.store.set_approval(&addr, key, ApproveEntry { enabled, template_id: tid, state: None });
            proof {
                assert(approvals_of(v.approvals, addr.model()).remove(id@).insert(id@, ApprovalView { state: None, ..e0 })
                    =~= approvals_of(v.approvals, addr.model()).insert(id@, ApprovalView { state: None, ..e0 }));
                assert(self.store@ =~= v.approvals.insert(
                    addr.model(),
                    approvals_of(v.approvals, addr.model()).insert(id@, ApprovalView { state: None, ..e0 }),
                ));
            }
            self.spawn_elem(template_id, String::from_str(id), stored);
        } else {
            self.store.set_approval(&addr, key, ApproveEntry { enabled, template_id: tid, state: stored });
            proof {
                assert(self.store@ =~= v.approvals.insert(
                    addr.model(),
                    approvals_of(v.approvals, addr.model()).insert(id@, e0),
                ));
            }
        }
        Ok(enabled)
    }

    /// The player switched the approval of element `elem_id` on the current
    /// server. Switching it on shows the element with the state stored with
    /// the approval (which is used up). Tells whether anything changed.
    pub fn set_element_enabled(&mut self, elem_id: &str, enabled: bool) -> (r: bool)
        requires
            old(self).wf(),
            enabling_is_possible(old(self)@, elem_id@, enabled),
        ensures
            final(self).spec_server() == old(self).spec_server(),
            final(self).spec_target_pid() == old(self).spec_target_pid(),
            final(self).wf(),
            ({
                let v = old(self)@;
                match v.server {
                    None => !r && final(self)@ == v,
                    Some(a) => {
                        let list = approvals_of(v.approvals, a);
                        if !list.contains_key(elem_id@) || list[elem_id@].enabled == enabled {
                            !r && final(self)@ == (OverlayView {
                                approvals: v.approvals.insert(a, list),
                                ..v
                            })
                        } else if !enabled {
                            r && final(self)@ == (OverlayView {
                                approvals: v.approvals.insert(
                                    a,
                                    list.insert(elem_id@, ApprovalView { enabled: false, ..list[elem_id@] }),
                                ),
                                ..v
                            })
                        } else {
                            let entry = list[elem_id@];
                            &&& r
                            &&& final(self)@ == (OverlayView {
                                approvals: v.approvals.insert(
                                    a,
                                    list.insert(elem_id@, ApprovalView { enabled: true, state: None, ..entry }),
                                ),
                                elements: v.elements.insert(elem_id@, final(self)@.elements[elem_id@]),
                                ..v
                            })
                            &&& final(self)@.elements[elem_id@].template == v.templates[entry.template_id]
                            &&& match entry.state {
                                Some(s) => final(self)@.elements[elem_id@].state == s,
                                None => forall|k: Seq<char>|
                                    #[trigger] spec_json_field_is_null(final(self)@.elements[elem_id@].state, k),
                            }
                        }
                    },
                }
            }),
    {
        let addr = match &self.server {
            None => {
                return false;
            },
            Some(s) => s.ip_addr.duplicate(),
        };
        let ghost v = self@;
        let key = String::from_str(elem_id);
        let taken = self.store.take_approval(&addr, &key);
        let entry = match taken {
            Some(e) => e,
            None => {
                proof {
                    assert(approvals_of(v.approvals, addr.model()).remove(elem_id@)
                        =~= approvals_of(v.approvals, addr.model()));
                }
                return false;
            },
        };
        let ghost e0 = entry@;
        let ghost list = approvals_of(v.approvals, addr.model());
        if entry.enabled == enabled {
            self.store.set_approval(&addr, key, entry);
            proof {
                assert(list.remove(elem_id@).insert(elem_id@, e0) =~= list);
                assert(self.store@ =~= v.approvals.insert(addr.model(), list));
            }
            return false;
        }
        let ApproveEntry { enabled: _, template_id: tid, state: stored } = entry;
        if !enabled {
            self.store.set_approval(&addr, key, ApproveEntry { enabled: false, template_id: tid, state: stored });
            proof {
                assert(list.remove(elem_id@).insert(elem_id@, ApprovalView { enabled: false, ..e0 })
                    =~= list.insert(elem_id@, ApprovalView { enabled: false, ..e0 }));
                assert(self.store@ =~= v.approvals.insert(
                    addr.model(),
                    list.insert(elem_id@, ApprovalView { enabled: false, ..e0 }),
                ));
            }
            return true;
        }
        let template_id = tid.clone();
        self.store.set_approval(&addr, key, ApproveEntry { enabled: true, template_id: tid, state: None });
        proof {
            assert(list.remove(elem_id@).insert(elem_id@, ApprovalView { enabled: true, state: None, ..e0 })
                =~= list.insert(elem_id@, ApprovalView { enabled: true, state: None, ..e0 }));
            assert(self.store@ =~= v.approvals.insert(
                addr.model(),
                list.insert(elem_id@, ApprovalView { enabled: true, state: None, ..e0 }),
            ));
        }
        self.spawn_elem(template_id.as_str(), String::from_str(elem_id), stored);
        true
    }
}

/// The templates of the overlay itself, by full id.
pub open spec fn default_templates() -> Map<Seq<char>, TemplateKind> {
    Map::<Seq<char>, TemplateKind>::empty().insert("overlay:invalid"@, TemplateKind::Invalid).insert(
        "overlay:list_players"@,
        TemplateKind::ListPlayers,
    ).insert("overlay:generic_text"@, TemplateKind::GenericText).insert(
        "overlay:generic_image"@,
        TemplateKind::GenericImage,
    )
}

/// A registry of the overlay's own templates.
pub fn default_registry() -> (r: Registry)
    ensures
        r.wf(),
        r@ == default_templates(),
{
    let mut r = Registry::new();
    r.register("overlay:list_players", TemplateKind::ListPlayers);
    r.register("overlay:generic_text", TemplateKind::GenericText);
    r.register("overlay:generic_image", TemplateKind::GenericImage);
    r
}

/// `p` is the player named `name`, with `steamid`, on team `team`, idle or
/// not, with admin permissions `perms`, and user id 0.
pub open spec fn player_is(
    p: PlayerInfo,
    name: Seq<char>,
    steamid: Seq<char>,
    team: u8,
    idle: bool,
    perms: Option<Seq<char>>,
) -> bool {
    &&& p.name@ == name
    &&& p.steamid@ == steamid
    &&& p.team.0 == team
    &&& p.is_idle == idle
    &&& opt_text(p.admin_perms) == perms
    &&& p.user_id == 0
}

pub open spec fn team_is(t: TeamConfig, name: Seq<char>, show: TeamShow) -> bool {
    t.name@ == name && t.show == show
}

/// The address of the demonstration server, 127.0.0.1:27015.
pub open spec fn demo_addr() -> (IpAddress, u16) {
    (IpAddress::V4(0x7f00_0001), 27015)
}

/// The demonstration server: "My Server" at 127.0.0.1:27015, with four
/// players (the overlay's own player first) and the five teams of the game.
pub open spec fn is_demo_server(s: ServerInfo) -> bool {
    &&& s.name@ == "My Server"@
    &&& s.ip_addr.model() == demo_addr()
    &&& s.ip_addr.text@ == "127.0.0.1:27015"@
    &&& s.ip_addr.ip_text@ == "127.0.0.1"@
    &&& s.players@.len() == 4
    &&& player_is(s.players@[0], "Jackzie"@, "STEAM_1:0:49243767"@, 2, false, Some("z"@))
    &&& player_is(s.players@[1], "Rochelle"@, "BOT"@, 2, false, None)
    &&& player_is(s.players@[2], "Player 2"@, "STEAM_#:#:######1"@, 2, true, Some("xz"@))
    &&& player_is(s.players@[3], "Hunter"@, "BOT"@, 3, false, None)
    &&& player_is(s.my_player, "Jackzie"@, "STEAM_1:0:49243767"@, 2, false, Some("z"@))
    &&& s.teams@.len() == 5
    &&& team_is(s.teams@[0], "Unassigned"@, TeamShow::Hidden)
    &&& team_is(s.teams@[1], "Spectators"@, TeamShow::Collapsed)
    &&& team_is(s.teams@[2], "Survivors"@, TeamShow::Open)
    &&& team_is(s.teams@[3], "Infected"@, TeamShow::Collapsed)
    &&& team_is(s.teams@[4], "Holdout Bots"@, TeamShow::Hidden)
}

fn demo_player(name: &str, steamid: &str, team: u8, idle: bool, perms: Option<&str>) -> (r: PlayerInfo)
    ensures
        player_is(
            r,
            name@,
            steamid@,
            team,
            idle,
            match perms {
                Some(p) => Some(p@),
                None => None,
            },
        ),
{
    let admin_perms = match perms {
        Some(p) => Some(String::from_str(p)),
        None => None,
    };
    PlayerInfo {
        steamid: String::from_str(steamid),
        user_id: 0,
        name: String::from_str(name),
        team: PlayerTeam(team),
        is_idle: idle,
        admin_perms,
    }
}

fn demo_team(name: &str, show: TeamShow) -> (r: TeamConfig)
    ensures
        team_is(r, name@, show),
{
    TeamConfig { name: String::from_str(name), show }
}

/// The demonstration server.
pub fn demo_server() -> (r: ServerInfo)
    ensures
        is_demo_server(r),
{
    let ip_addr = PeerAddr::new(
        IpAddress::V4(0x7f00_0001),
        27015,
        String::from_str("127.0.0.1:27015"),
        String::from_str("127.0.0.1"),
    );
    let mut players: Vec<PlayerInfo> = Vec::new();
    players.push(demo_player("Jackzie", "STEAM_1:0:49243767", 2, false, Some("z")));
    players.push(demo_player("Rochelle", "BOT", 2, false, None));
    players.push(demo_player("Player 2", "STEAM_#:#:######1", 2, true, Some("xz")));
    players.push(demo_player("Hunter", "BOT", 3, false, None));
    let mut teams: Vec<TeamConfig> = Vec::new();
    teams.push(demo_team("Unassigned", TeamShow::Hidden));
    teams.push(demo_team("Spectators", TeamShow::Collapsed));
    teams.push(demo_team("Survivors", TeamShow::Open));
    teams.push(demo_team("Infected", TeamShow::Collapsed));
    teams.push(demo_team("Holdout Bots", TeamShow::Hidden));
    ServerInfo {
        name: String::from_str("My Server"),
        ip_addr,
        players,
        my_player: demo_player("Jackzie", "STEAM_1:0:49243767", 2, false, Some("z")),
        teams,
    }
}

impl OverlayData {
    /// The overlay over the game process `target_pid`, on the demonstration
    /// server, with the approvals of `store`, its own templates, and the
    /// player list requested as element `list_players_test` with
    /// `list_state` (waiting for approval, or shown at once when it was
    /// approved before).
    pub fn example(store: OverlayStorage, list_state: ElementState, target_pid: u32) -> (r: OverlayData)
        requires
            store.wf(),
            approvals_of(store@, demo_addr()).contains_key("list_players_test"@)
                ==> approvals_of(store@, demo_addr())["list_players_test"@].template_id
                == "overlay:list_players"@,
        ensures
            r.wf(),
            r.spec_target_pid() == target_pid,
            r.spec_server() matches Some(s) && is_demo_server(s),
            r@.templates == default_templates(),
            r@.server == Some(demo_addr()),
            r@.ui_state == UIState::Inactive,
            r@.messages == Seq::<(MessageType, Option<Seq<char>>, Seq<char>)>::empty(),
            ({
                let a = demo_addr();
                let list = approvals_of(store@, a);
                let before = if list.contains_key("list_players_test"@) {
                    list["list_players_test"@]
                } else {
                    ApprovalView {
                        enabled: false,
                        template_id: "overlay:list_players"@,
                        state: Some(list_state),
                    }
                };
                &&& before.enabled ==> r@.approvals == store@.insert(
                    a,
                    list.insert("list_players_test"@, ApprovalView { state: None, ..before }),
                ) && r@.elements.dom() == set!["list_players_test"@]
                    && r@.elements["list_players_test"@].id == "list_players_test"@
                    && r@.elements["list_players_test"@].template == TemplateKind::ListPlayers
                    && match before.state {
                    Some(st) => r@.elements["list_players_test"@].state == st,
                    None => forall|k: Seq<char>|
                        #[trigger] spec_json_field_is_null(r@.elements["list_players_test"@].state, k),
                }
                &&& !before.enabled ==> r@.approvals == store@.insert(a, list.insert("list_players_test"@, before))
                    && r@.elements.dom().is_empty()
            }),
    {
        let registry = default_registry();
        let server = demo_server();
        let ghost srv = server;
        let mut s = OverlayData::new(Some(server), registry, store, target_pid);
        proof {
            reveal_strlit("overlay:list_players");
            reveal_strlit("overlay:invalid");
            reveal_strlit("overlay:generic_text");
            reveal_strlit("overlay:generic_image");
        }
        proof {
            assert("overlay:list_players"@[8] != "overlay:generic_text"@[8]);
            assert("overlay:list_players"@[8] != "overlay:generic_image"@[8]);
            assert("overlay:list_players"@ != "overlay:invalid"@);
            assert(default_templates()["overlay:list_players"@] == TemplateKind::ListPlayers);
        }
        let ghost v = s@;
        let ghost a = v.server->0;
        assert(v.templates.contains_key("overlay:list_players"@));
        assert(v.elements == Map::<Seq<char>, ElementView>::empty());
        let _ = s.request_elem("overlay:list_players", "list_players_test", list_state);
        proof {
            let list = approvals_of(v.approvals, a);
            if list.contains_key("list_players_test"@) && list["list_players_test"@].enabled {
                assert(s@.elements.dom() =~= set!["list_players_test"@]);
                assert(s@.elements["list_players_test"@].template == TemplateKind::ListPlayers);
            } else {
                assert(s@.elements.dom() =~= Set::<Seq<char>>::empty());
            }
        }
        s
    }
}

/// Approving an element is remembered: once the player has switched on an
/// element waiting for approval, a request for it with the same (registered)
/// template shows it at once.
pub proof fn law_approval_is_remembered(
    v: OverlayView,
    after: OverlayView,
    template_id: Seq<char>,
    id: Seq<char>,
)
    requires
        v.server matches Some(a) && approvals_of(v.approvals, a).contains_key(id)
            && approvals_of(v.approvals, a)[id].template_id == template_id && after.server == v.server
            && after.templates == v.templates && after.approvals == v.approvals.insert(
            a,
            approvals_of(v.approvals, a).insert(
                id,
                ApprovalView { enabled: true, state: None, ..approvals_of(v.approvals, a)[id] },
            ),
        ),
        v.templates.contains_key(template_id),
    ensures
        approved_for(after, template_id, id),
{
}

/// Toggling the detail view twice comes back to where it was (an inactive
/// overlay comes back active), and toggling never makes the overlay inactive.
pub proof fn law_toggle(s: UIState)
    ensures
        toggled(toggled(s)) == (if s == UIState::Inactive {
            UIState::Active
        } else {
            s
        }),
        toggled(s) != UIState::Inactive,
{
}

} // verus!
