//! Element templates: their ids, and which element states each accepts.

use vstd::prelude::*;
use crate::json::{json_field_is_null, spec_json_field_is_null, json_member, json_as_str, spec_json_member, spec_json_str};
use crate::messages::ElementState;

verus! {

/// The templates that ship with the overlay.
#[derive(Clone, Copy, Debug, PartialEq, Eq, Structural)]
pub enum CoreTemplate {
    Invalid,
    ListPlayers,
    GenericText,
    GenericImage,
    MOTD,
}

/// The name a core template is written with.
pub open spec fn core_template_text(t: CoreTemplate) -> Seq<char> {
    match t {
        CoreTemplate::Invalid => "invalid"@,
        CoreTemplate::ListPlayers => "list_players"@,
        CoreTemplate::GenericText => "generic_text"@,
        CoreTemplate::GenericImage => "generic_image"@,
        CoreTemplate::MOTD => "motd"@,
    }
}

/// The core template a name denotes.
pub open spec fn core_template_of(s: Seq<char>) -> Option<CoreTemplate> {
    if s == "invalid"@ {
        Some(CoreTemplate::Invalid)
    } else if s == "list_players"@ {
        Some(CoreTemplate::ListPlayers)
    } else if s == "generic_text"@ {
        Some(CoreTemplate::GenericText)
    } else if s == "generic_image"@ {
        Some(CoreTemplate::GenericImage)
    } else if s == "motd"@ {
        Some(CoreTemplate::MOTD)
    } else {
        None
    }
}

impl CoreTemplate {
    pub fn default_template() -> (r: CoreTemplate)
        ensures
            r == CoreTemplate::Invalid,
    {
        CoreTemplate::Invalid
    }

    /// The name the template is written with.
    pub fn to_text(&self) -> (r: String)
        ensures
            r@ == core_template_text(*self),
    {
        match self {
            CoreTemplate::Invalid => String::from_str("invalid"),
            CoreTemplate::ListPlayers => String::from_str("list_players"),
            CoreTemplate::GenericText => String::from_str("generic_text"),
            CoreTemplate::GenericImage => String::from_str("generic_image"),
            CoreTemplate::MOTD => String::from_str("motd"),
        }
    }

    /// The template a name denotes; `None` for a name no core template has.
    pub fn from_text(s: &str) -> (r: Option<CoreTemplate>)
        ensures
            r == core_template_of(s@),
    {
        let t = String::from_str(s);
        if t == String::from_str("invalid") {
            Some(CoreTemplate::Invalid)
        } else if t == String::from_str("list_players") {
            Some(CoreTemplate::ListPlayers)
        } else if t == String::from_str("generic_text") {
            Some(CoreTemplate::GenericText)
        } else if t == String::from_str("generic_image") {
            Some(CoreTemplate::GenericImage)
        } else if t == String::from_str("motd") {
            Some(CoreTemplate::MOTD)
        } else {
            None
        }
    }
}

/// Reading the name of a core template gives the template back.
pub proof fn law_core_template_round_trip(t: CoreTemplate)
    ensures
        core_template_of(core_template_text(t)) == Some(t),
{
    reveal_strlit("invalid");
    reveal_strlit("list_players");
    reveal_strlit("generic_text");
    reveal_strlit("generic_image");
    reveal_strlit("motd");
    assert("invalid"@.len() == 7);
    assert("list_players"@.len() == 12 && "list_players"@[0] == 'l');
    assert("generic_text"@.len() == 12 && "generic_text"@[0] == 'g');
    assert("generic_image"@.len() == 13);
    assert("motd"@.len() == 4);
}

/// A template, by the core template it is or by namespace and id.
#[derive(Debug)]
pub enum TemplateId {
    Core(CoreTemplate),
    Other(String, String),
}

/// The full id a template id is written as.
pub open spec fn template_id_text(t: TemplateId) -> Seq<char> {
    match t {
        TemplateId::Core(part) => "core:"@ + core_template_text(part),
        TemplateId::Other(ns, part) => ns@ + ":"@ + part@,
    }
}

impl TemplateId {
    pub fn custom(namespace: &str, id: &str) -> (r: TemplateId)
        ensures
            r matches TemplateId::Other(ns, part) && ns@ == namespace@ && part@ == id@,
    {
        TemplateId::Other(String::from_str(namespace), String::from_str(id))
    }

    pub fn from_core(core_template: CoreTemplate) -> (r: TemplateId)
        ensures
            r == TemplateId::Core(core_template),
    {
        TemplateId::Core(core_template)
    }

    /// The full id, such as `core:list_players` or `overlay:my_template`.
    pub fn to_text(&self) -> (r: String)
        ensures
            r@ == template_id_text(*self),
    {
        match self {
            TemplateId::Core(part) => String::from_str("core:").concat(part.to_text().as_str()),
            TemplateId::Other(ns, part) => ns.clone().concat(":").concat(part.as_str()),
        }
    }
}

/// The templates an overlay can show.
#[derive(Clone, Copy, Debug, PartialEq, Eq, Structural)]
pub enum TemplateKind {
    /// Shown in place of an element whose template is unknown.
    Invalid,
    ListPlayers,
    GenericText,
    GenericImage,
}

/// The member of an element's state that a template needs.
pub open spec fn required_field(k: TemplateKind) -> Option<Seq<char>> {
    match k {
        TemplateKind::Invalid => None,
        TemplateKind::ListPlayers => Some("actions"@),
        TemplateKind::GenericText => Some("content"@),
        TemplateKind::GenericImage => Some("url"@),
    }
}

/// Whether a template accepts a state: the member it needs is not missing.
pub open spec fn state_valid(k: TemplateKind, state: ElementState) -> bool {
    match required_field(k) {
        None => true,
        Some(f) => !spec_json_field_is_null(state, f),
    }
}

/// The error a template reports for a state it refuses.
pub open spec fn state_error(k: TemplateKind) -> Seq<char> {
    match k {
        TemplateKind::ListPlayers => "'actions' field is missing"@,
        TemplateKind::GenericText => "'content' field is missing"@,
        TemplateKind::GenericImage => "'url' field is missing"@,
        TemplateKind::Invalid => Seq::empty(),
    }
}

impl TemplateKind {
    /// Validates a state, returning Ok(()) if all fields are correct, or the
    /// error the element shows instead.
    pub fn is_state_valid(&self, state: &ElementState) -> (r: Result<(), String>)
        ensures
            r is Ok <==> state_valid(*self, *state),
            r matches Err(e) ==> e@ == state_error(*self),
    {
        match self {
            TemplateKind::Invalid => Ok(()),
            TemplateKind::ListPlayers => TemplateListPlayers.is_state_valid(state),
            TemplateKind::GenericText => TemplateGenericText.is_state_valid(state),
            TemplateKind::GenericImage => TemplateGenericImage.is_state_valid(state),
        }
    }
}

/// Lists the players of the server, grouped by team.
#[derive(Clone, Copy, Debug)]
pub struct TemplateListPlayers;

/// Shows the text in the `content` member of its state.
#[derive(Clone, Copy, Debug)]
pub struct TemplateGenericText;

/// Shows the image at the `url` member of its state.
#[derive(Clone, Copy, Debug)]
pub struct TemplateGenericImage;

impl TemplateListPlayers {
    pub fn id(&self) -> (r: &'static str)
        ensures
            r@ == "overlay:list_players"@,
    {
        "overlay:list_players"
    }

    pub fn is_state_valid(&self, state: &ElementState) -> (r: Result<(), String>)
        ensures
            r is Ok <==> !spec_json_field_is_null(*state, "actions"@),
            r matches Err(e) ==> e@ == "'actions' field is missing"@,
    {
        if json_field_is_null(state, "actions") {
            return Err(String::from_str("'actions' field is missing"));
        }
        Ok(())
    }
}

impl TemplateGenericText {
    pub fn id(&self) -> (r: &'static str)
        ensures
            r@ == "overlay:generic_text"@,
    {
        "overlay:generic_text"
    }

    pub fn is_state_valid(&self, state: &ElementState) -> (r: Result<(), String>)
        ensures
            r is Ok <==> !spec_json_field_is_null(*state, "content"@),
            r matches Err(e) ==> e@ == "'content' field is missing"@,
    {
        if json_field_is_null(state, "content") {
            return Err(String::from_str("'content' field is missing"));
        }
        Ok(())
    }

    /// The text the element shows: its `content` member, which must be a
    /// JSON string.
    pub fn content(&self, state: &ElementState) -> (r: String)
        requires
            spec_json_str(spec_json_member(*state, "content"@)) is Some,
        ensures
            Some(r@) == spec_json_str(spec_json_member(*state, "content"@)),
    {
        let member = json_member(state, "content");
        json_as_str(&member).unwrap()
    }

    /// The text the element shows, when its `content` member is a JSON
    /// string; `None` otherwise (where `content` would fail).
    pub fn try_content(&self, state: &ElementState) -> (r: Option<String>)
        ensures
            match r {
                Some(t) => spec_json_str(spec_json_member(*state, "content"@)) == Some(t@),
                None => spec_json_str(spec_json_member(*state, "content"@)) is None,
            },
    {
        let member = json_member(state, "content");
        if json_as_str(&member).is_some() {
            Some(self.content(state))
        } else {
            None
        }
    }
}

impl TemplateGenericImage {
    pub fn id(&self) -> (r: &'static str)
        ensures
            r@ == "overlay:generic_image"@,
    {
        "overlay:generic_image"
    }

    pub fn is_state_valid(&self, state: &ElementState) -> (r: Result<(), String>)
        ensures
            r is Ok <==> !spec_json_field_is_null(*state, "url"@),
            r matches Err(e) ==> e@ == "'url' field is missing"@,
    {
        if json_field_is_null(state, "url") {
            return Err(String::from_str("'url' field is missing"));
        }
        Ok(())
    }

    /// The address of the image the element shows: its `url` member, which
    /// must be a JSON string.
    pub fn url(&self, state: &ElementState) -> (r: String)
        requires
            spec_json_str(spec_json_member(*state, "url"@)) is Some,
        ensures
            Some(r@) == spec_json_str(spec_json_member(*state, "url"@)),
    {
        let member = json_member(state, "url");
        json_as_str(&member).unwrap()
    }

    /// The address of the image, when its `url` member is a JSON string;
    /// `None` otherwise (where `url` would fail).
    pub fn try_url(&self, state: &ElementState) -> (r: Option<String>)
        ensures
            match r {
                Some(t) => spec_json_str(spec_json_member(*state, "url"@)) == Some(t@),
                None => spec_json_str(spec_json_member(*state, "url"@)) is None,
            },
    {
        let member = json_member(state, "url");
        if json_as_str(&member).is_some() {
            Some(self.url(state))
        } else {
            None
        }
    }
}

} // verus!
