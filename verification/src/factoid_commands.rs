use vstd::prelude::*;

use crate::factoids::{
    get_factoid, get_factoid_by_display_name, get_factoids_for_guild, guild_factoids, is_name_taken,
    lists_guild_factoids, map_get, views_of, FactoidCache, FactoidData, FactoidView,
};
use crate::wrapper::GuildIdWrapper;

verus! {

/// What a factoid id may be made of: lower-case letters, digits, `_` and `-`.
pub const ID_PATTERN: &'static str = "^[a-z0-9_-]+$";

/// What a factoid's display name may be made of: letters, digits and spaces.
pub const NAME_PATTERN: &'static str = "^[a-zA-Z0-9 ]+$";

/// What the `regex` crate answers when asked whether `text` matches
/// `pattern`: `None` where the pattern does not compile.
pub uninterp spec fn regex_match_outcome(pattern: Seq<char>, text: Seq<char>) -> Option<bool>;

/// A character that a factoid id may hold: `[a-z0-9_-]`.
pub open spec fn is_id_char(c: char) -> bool {
    ('a' <= c && c <= 'z') || ('0' <= c && c <= '9') || c == '_' || c == '-'
}

/// A character that a display name may hold: `[a-zA-Z0-9 ]`.
pub open spec fn is_name_char(c: char) -> bool {
    ('a' <= c && c <= 'z') || ('A' <= c && c <= 'Z') || ('0' <= c && c <= '9') || c == ' '
}

/// A valid factoid id: one or more characters of `[a-z0-9_-]`.
pub open spec fn valid_id_text(s: Seq<char>) -> bool {
    s.len() > 0 && forall|i: int| 0 <= i < s.len() ==> is_id_char(#[trigger] s[i])
}

/// A valid display name: one or more characters of `[a-zA-Z0-9 ]`.
pub open spec fn valid_name_text(s: Seq<char>) -> bool {
    s.len() > 0 && forall|i: int| 0 <= i < s.len() ==> is_name_char(#[trigger] s[i])
}

/// Compiles `pattern` with `regex::Regex::new` and tests `text` against it
/// with `is_match`. The contract names the answer; for the two patterns
/// that this library uses it also states it, as the `regex` syntax
/// documentation gives it: `^` and `$` anchor at the start and the end of
/// the text (no multi-line mode), and `[...]+` is one or more characters of
/// the listed ASCII ranges and characters.
#[verifier::external_body]
fn regex_is_match(pattern: &str, text: &str) -> (r: Option<bool>)
    ensures
        r == regex_match_outcome(pattern@, text@),
        pattern@ == ID_PATTERN@ ==> r == Some(valid_id_text(text@)),
        pattern@ == NAME_PATTERN@ ==> r == Some(valid_name_text(text@)),
{
    match regex::Regex::new(pattern) {
        Ok(re) => Some(re.is_match(text)),
        Err(_) => None,
    }
}

/// What `serde_json` makes of `source`: its compact rendering
/// (`Value::from_str`, then `Display`), or the text of its parse error.
pub uninterp spec fn json_compact_outcome(source: Seq<char>) -> Result<Seq<char>, Seq<char>>;

/// What `serde_json` makes of `source`: its pretty rendering
/// (`Value::from_str`, then the alternate `Display`), or the text of its
/// parse error.
pub uninterp spec fn json_pretty_outcome(source: Seq<char>) -> Result<Seq<char>, Seq<char>>;

pub open spec fn text_result(r: Result<String, String>) -> Result<Seq<char>, Seq<char>> {
    match r {
        Ok(s) => Ok(s@),
        Err(e) => Err(e@),
    }
}

/// Parses `source` as JSON with `serde_json::Value::from_str` and writes it
/// back compactly, or gives the parse error's text. The contract names the
/// outcome and says no more of it.
#[verifier::external_body]
pub(crate) fn json_minify(source: &str) -> (r: Result<String, String>)
    ensures
        text_result(r) == json_compact_outcome(source@),
{
    match <serde_json::Value as std::str::FromStr>::from_str(source) {
        Ok(v) => Ok(format!("{}", v)),
        Err(e) => Err(format!("{}", e)),
    }
}

/// Parses `source` as JSON with `serde_json::Value::from_str` and writes it
/// back pretty-printed, or gives the parse error's text. The contract names
/// the outcome and says no more of it.
#[verifier::external_body]
pub(crate) fn json_pretty(source: &str) -> (r: Result<String, String>)
    ensures
        text_result(r) == json_pretty_outcome(source@),
{
    match <serde_json::Value as std::str::FromStr>::from_str(source) {
        Ok(v) => Ok(format!("{:#}", v)),
        Err(e) => Err(format!("{}", e)),
    }
}

/// The answer that rejects an id.
pub open spec fn invalid_id_reply() -> Seq<char> {
    "<:no:1500220802841182211> Invalid id. Please only use lower alphanumerical and `-` or `_` characters."@
}

pub open spec fn invalid_name_reply() -> Seq<char> {
    "<:no:1500220802841182211> Invalid name. Please only use alphanumerical characters and ` `."@
}

pub open spec fn name_taken_reply() -> Seq<char> {
    "<:no:1500220802841182211> A factoid with this name already exists."@
}

pub open spec fn not_found_reply() -> Seq<char> {
    "<:no:1500220802841182211> No factoid found."@
}

pub open spec fn went_wrong_reply() -> Seq<char> {
    "<:no:1500220802841182211> Something went wrong."@
}

pub open spec fn no_response_reply() -> Seq<char> {
    "<:no:1500220802841182211> No response sent."@
}

/// Whether `id` may serve as a factoid id: whether it matches `ID_PATTERN`,
/// that is, holds one or more characters of `[a-z0-9_-]`.
pub fn is_valid_factoid_id(id: &str) -> (r: bool)
    ensures
        r == valid_id_text(id@),
{
    match regex_is_match(ID_PATTERN, id) {
        Some(b) => b,
        None => false,
    }
}

/// Whether `name` may serve as a display name: whether it matches
/// `NAME_PATTERN`, that is, holds one or more characters of `[a-zA-Z0-9 ]`.
pub fn is_valid_factoid_name(name: &str) -> (r: bool)
    ensures
        r == valid_name_text(name@),
{
    match regex_is_match(NAME_PATTERN, name) {
        Some(b) => b,
        None => false,
    }
}

/// Why a new factoid is refused, given whether its id is valid, whether its
/// name is valid and whether its id is taken, checked in that order; `None`
/// where it is accepted.
pub fn add_rejection(id_valid: bool, name_valid: bool, taken: bool) -> (r: Option<String>)
    ensures
        r.deep_view() == if !id_valid {
            Some(invalid_id_reply())
        } else if !name_valid {
            Some(invalid_name_reply())
        } else if taken {
            Some(name_taken_reply())
        } else {
            None
        },
{
    if !id_valid {
        Some(String::from_str("<:no:1500220802841182211> Invalid id. Please only use lower alphanumerical and `-` or `_` characters."))
    } else if !name_valid {
        Some(String::from_str("<:no:1500220802841182211> Invalid name. Please only use alphanumerical characters and ` `."))
    } else if taken {
        Some(String::from_str("<:no:1500220802841182211> A factoid with this name already exists."))
    } else {
        None
    }
}

/// The checks that `/factoid add` makes before it asks for the factoid's
/// content: the reply that refuses it, or `None` where it may go on.
pub fn factoid_add_precheck(cache: &FactoidCache, guild: GuildIdWrapper, id: &String, name: &String) -> (r: Option<String>)
    ensures
        r.deep_view() == if !valid_id_text(id@) {
            Some(invalid_id_reply())
        } else if !valid_name_text(name@) {
            Some(invalid_name_reply())
        } else if cache@.dom().contains((guild.0, id@)) {
            Some(name_taken_reply())
        } else {
            None
        },
{
    let id_valid = is_valid_factoid_id(id.as_str());
    if !id_valid {
        return add_rejection(false, true, false);
    }
    let name_valid = is_valid_factoid_name(name.as_str());
    if !name_valid {
        return add_rejection(true, false, false);
    }
    let taken = is_name_taken(cache, guild, id);
    add_rejection(true, true, taken)
}

/// What the modal that creates a factoid gives back.
pub struct FactoidCreateData {
    pub components: String,
    pub description: Option<String>,
}

/// Reads the modal that creates a factoid: its components field, which the
/// modal requires, and its optional description.
pub fn parse_factoid_create_modal(components: Option<String>, description: Option<String>) -> (r: FactoidCreateData)
    requires
        components is Some,
    ensures
        r.components@ == components->0@,
        r.description.deep_view() == description.deep_view(),
{
    match components {
        Some(c) => FactoidCreateData { components: c, description },
        None => FactoidCreateData { components: String::new(), description },
    }
}

/// The factoid that `/factoid add` stores, given the outcome of rendering
/// the modal's components compactly: the rendering replaces what was typed,
/// and a parse error refuses the factoid with a reply that quotes it.
pub fn new_factoid_from_modal(
    id: String,
    name: String,
    description: Option<String>,
    rendered: Result<String, String>,
) -> (r: Result<FactoidData, String>)
    ensures
        match rendered {
            Ok(c) => r matches Ok(f) && f@ == (FactoidView {
                display_name: name@,
                factoid_name: id@,
                description: description.deep_view(),
                components: c@,
            }),
            Err(e) => r matches Err(reply) && reply@ == "<:no:1500220802841182211> Failed to parse components JSON: "@ + e@,
        },
{
    match rendered {
        Ok(c) => Ok(FactoidData { display_name: name, factoid_name: id, description, components: c }),
        Err(e) => {
            let mut reply = String::from_str("<:no:1500220802841182211> Failed to parse components JSON: ");
            reply.append(e.as_str());
            Err(reply)
        },
    }
}

/// What `/factoid add` makes of the modal's answer: the factoid to store, or
/// the reply that refuses it where the modal was not answered or its
/// components are not JSON.
pub fn prepare_new_factoid(id: String, name: String, modal: Option<FactoidCreateData>) -> (r: Result<FactoidData, String>)
    ensures
        match modal {
            None => r matches Err(reply) && reply@ == went_wrong_reply(),
            Some(m) => match json_compact_outcome(m.components@) {
                Ok(c) => r matches Ok(f) && f@ == (FactoidView {
                    display_name: name@,
                    factoid_name: id@,
                    description: m.description.deep_view(),
                    components: c,
                }),
                Err(e) => r matches Err(reply) && reply@ == "<:no:1500220802841182211> Failed to parse components JSON: "@ + e,
            },
        },
{
    match modal {
        None => Err(String::from_str("<:no:1500220802841182211> Something went wrong.")),
        Some(m) => {
            let rendered = json_minify(m.components.as_str());
            new_factoid_from_modal(id, name, m.description, rendered)
        },
    }
}

/// The value a field of the edit modal gives: what was typed, or the
/// current value where the field was left empty.
pub open spec fn typed_or(typed: Option<Seq<char>>, current: Seq<char>) -> Seq<char> {
    match typed {
        Some(t) => t,
        None => current,
    }
}

/// Reads the modal that edits `factoid`: each field left empty keeps the
/// factoid's current value.
pub fn parse_factoid_edit_modal(
    display_name: Option<String>,
    factoid_name: Option<String>,
    description: Option<String>,
    components: Option<String>,
    factoid: &FactoidData,
) -> (r: FactoidData)
    ensures
        r@.display_name == typed_or(display_name.deep_view(), factoid@.display_name),
        r@.factoid_name == typed_or(factoid_name.deep_view(), factoid@.factoid_name),
        r@.components == typed_or(components.deep_view(), factoid@.components),
        r@.description == match description.deep_view() {
            Some(d) => Some(d),
            None => factoid@.description,
        },
{
    let description = match description {
        Some(d) => Some(d),
        None => crate::text::clone_opt_string(&factoid.description),
    };
    FactoidData {
        display_name: match display_name {
            Some(d) => d,
            None => factoid.display_name.clone(),
        },
        factoid_name: match factoid_name {
            Some(n) => n,
            None => factoid.factoid_name.clone(),
        },
        components: match components {
            Some(c) => c,
            None => factoid.components.clone(),
        },
        description,
    }
}

/// The modal that edits a factoid: its custom id and title, and the
/// placeholders that show the current values in its fields (display name,
/// id, description, components).
pub struct EditModal {
    pub custom_id: String,
    pub title: String,
    pub display_placeholder: String,
    pub id_placeholder: String,
    pub description_placeholder: Option<String>,
    pub components_placeholder: String,
}

/// The modal that edits factoid `f`: filed under its id, titled after its
/// display name, each field showing the current value, the components field
/// saying that a blank keeps them.
pub fn edit_modal_for(f: &FactoidData) -> (r: EditModal)
    ensures
        r.custom_id@ == f@.factoid_name,
        r.title@ == "Edit "@ + f@.display_name,
        r.display_placeholder@ == f@.display_name,
        r.id_placeholder@ == f@.factoid_name,
        r.description_placeholder.deep_view() == f@.description,
        r.components_placeholder@ == "Leave blank for current."@,
{
    EditModal {
        custom_id: f.factoid_name.clone(),
        title: crate::text::join2("Edit ", f.display_name.as_str()),
        display_placeholder: f.display_name.clone(),
        id_placeholder: f.factoid_name.clone(),
        description_placeholder: crate::text::clone_opt_string(&f.description),
        components_placeholder: String::from_str("Leave blank for current."),
    }
}

/// What `/factoid update` makes of the edit modal's answer: the factoid with
/// its components rendered compactly, or the reply that refuses the edit
/// where the modal was not answered or its components are not JSON.
pub fn prepare_factoid_update(edited: Option<FactoidData>) -> (r: Result<FactoidData, String>)
    ensures
        match edited {
            None => r matches Err(reply) && reply@ == no_response_reply(),
            Some(d) => match json_compact_outcome(d.components@) {
                Ok(c) => r matches Ok(f) && f@ == (FactoidView { components: c, ..d@ }),
                Err(e) => r matches Err(reply) && reply@ == "<:no:1500220802841182211> Failed to parse components JSON: "@ + e,
            },
        },
{
    match edited {
        None => Err(String::from_str("<:no:1500220802841182211> No response sent.")),
        Some(d) => match json_minify(d.components.as_str()) {
            Ok(c) => Ok(d.with_components(c)),
            Err(e) => {
                let mut reply = String::from_str("<:no:1500220802841182211> Failed to parse components JSON: ");
                reply.append(e.as_str());
                Err(reply)
            },
        },
    }
}

/// The factoid that `/factoid update` edits: the one named `id` in `guild`,
/// or the reply that refuses the update where the id is invalid or no such
/// factoid exists.
pub fn factoid_to_update(cache: &FactoidCache, guild: GuildIdWrapper, id: String) -> (r: Result<FactoidData, String>)
    ensures
        !valid_id_text(id@) ==> (r matches Err(reply) && reply@ == invalid_id_reply()),
        valid_id_text(id@) ==> match map_get(cache@, (guild.0, id@)) {
            Some(f) => r matches Ok(d) && d@ == f,
            None => r matches Err(reply) && reply@ == not_found_reply(),
        },
{
    if !is_valid_factoid_id(id.as_str()) {
        return Err(String::from_str("<:no:1500220802841182211> Invalid id. Please only use lower alphanumerical and `-` or `_` characters."));
    }
    match get_factoid(cache, guild, id) {
        Some(f) => Ok(f),
        None => Err(String::from_str("<:no:1500220802841182211> No factoid found.")),
    }
}

/// The check that `/factoid remove` makes: the reply that refuses the
/// removal where `guild` has no factoid `id`, else `None`.
pub fn factoid_remove_precheck(cache: &FactoidCache, guild: GuildIdWrapper, id: &String) -> (r: Option<String>)
    ensures
        r.deep_view() == if cache@.dom().contains((guild.0, id@)) {
            None
        } else {
            Some(not_found_reply())
        },
{
    if is_name_taken(cache, guild, id) {
        None
    } else {
        Some(String::from_str("<:no:1500220802841182211> No factoid found."))
    }
}

/// The reply that confirms the removal of the factoid `id`.
pub fn removed_reply(id: &str) -> (r: String)
    ensures
        r@ == "<:yes:1500220801108934786> Successfully removed `"@ + id@ + "`."@,
{
    crate::text::join3("<:yes:1500220801108934786> Successfully removed `", id, "`.")
}

/// The reply that shows a factoid's components, pretty-printed.
pub fn source_reply(pretty: &str) -> (r: String)
    ensures
        r@ == "<:yes:1500220801108934786> Components (JSON):\n```json\n"@ + pretty@ + "\n```"@,
{
    crate::text::join3("<:yes:1500220801108934786> Components (JSON):\n```json\n", pretty, "\n```")
}

/// What `/factoid source` answers: the factoid's components pretty-printed,
/// the reply that no such factoid exists, or the JSON error that ends the
/// command.
pub fn factoid_source(cache: &FactoidCache, guild: GuildIdWrapper, id: String) -> (r: Result<String, String>)
    ensures
        match map_get(cache@, (guild.0, id@)) {
            None => r matches Ok(reply) && reply@ == not_found_reply(),
            Some(f) => match json_pretty_outcome(f.components) {
                Ok(p) => r matches Ok(reply) && reply@ == "<:yes:1500220801108934786> Components (JSON):\n```json\n"@ + p + "\n```"@,
                Err(e) => r matches Err(x) && x@ == e,
            },
        },
{
    match get_factoid(cache, guild, id) {
        None => Ok(String::from_str("<:no:1500220802841182211> No factoid found.")),
        Some(f) => match json_pretty(f.components.as_str()) {
            Ok(p) => Ok(source_reply(p.as_str())),
            Err(e) => Err(e),
        },
    }
}

/// The description of a factoid's commands, with a stand-in where it has none.
pub fn command_description(f: &FactoidData) -> (r: String)
    ensures
        r@ == match f@.description {
            Some(d) => d,
            None => "(description not set)"@,
        },
{
    match &f.description {
        Some(d) => d.clone(),
        None => String::from_str("(description not set)"),
    }
}

/// The two kinds of command that a factoid gets.
#[derive(Clone, Copy, Debug, PartialEq, Eq, Structural)]
pub enum FactoidCommandKind {
    /// `/id`: posts the factoid.
    Slash,
    /// A message context menu entry named after the display name: posts the
    /// factoid as a reply to the message.
    MessageContext,
}

/// A command to register for a factoid.
pub struct FactoidCommand {
    pub kind: FactoidCommandKind,
    pub name: String,
    pub description: String,
    pub factoid: FactoidData,
}

pub open spec fn described(f: FactoidView) -> Seq<char> {
    match f.description {
        Some(d) => d,
        None => "(description not set)"@,
    }
}

/// `cs` holds, for each factoid of `fs` in turn, its slash command and then
/// its context menu entry.
pub open spec fn commands_for(cs: Seq<FactoidCommand>, fs: Seq<FactoidView>) -> bool {
    &&& cs.len() == 2 * fs.len()
    &&& forall|a: int| 0 <= a < fs.len() ==> {
        let s = #[trigger] cs[2 * a];
        let c = cs[2 * a + 1];
        &&& s.kind == FactoidCommandKind::Slash
        &&& s.name@ == fs[a].factoid_name
        &&& s.description@ == described(fs[a])
        &&& s.factoid@ == fs[a]
        &&& c.kind == FactoidCommandKind::MessageContext
        &&& c.name@ == fs[a].display_name
        &&& c.description@ == described(fs[a])
        &&& c.factoid@ == fs[a]
    }
}

/// The commands that the guild's factoids make: for each factoid, in some
/// order, its slash command and its context menu entry.
pub fn get_factoid_commands(cache: &FactoidCache, guild: GuildIdWrapper) -> (r: Vec<FactoidCommand>)
    ensures
        exists|fs: Seq<FactoidView>| lists_guild_factoids(fs, cache@, guild.0) && #[trigger] commands_for(r@, fs),
{
    let factoids = get_factoids_for_guild(cache, guild);
    let ghost fs = views_of(factoids@);
    let mut out: Vec<FactoidCommand> = Vec::new();
    let mut i: usize = 0;
    while i < factoids.len()
        invariant
            fs == views_of(factoids@),
            i <= factoids@.len(),
            commands_for(out@, fs.take(i as int)),
        decreases factoids@.len() - i,
    {
        let f = &factoids[i];
        let ghost before = out@;
        out.push(FactoidCommand {
            kind: FactoidCommandKind::Slash,
            name: f.factoid_name.clone(),
            description: command_description(f),
            factoid: f.duplicate(),
        });
        out.push(FactoidCommand {
            kind: FactoidCommandKind::MessageContext,
            name: f.display_name.clone(),
            description: command_description(f),
            factoid: f.duplicate(),
        });
        proof {
            let t = fs.take(i + 1);
            assert(t[i as int] == f@);
            assert forall|a: int| 0 <= a < t.len() implies {
                let s = #[trigger] out@[2 * a];
                let c = out@[2 * a + 1];
                &&& s.kind == FactoidCommandKind::Slash
                &&& s.name@ == t[a].factoid_name
                &&& s.description@ == described(t[a])
                &&& s.factoid@ == t[a]
                &&& c.kind == FactoidCommandKind::MessageContext
                &&& c.name@ == t[a].display_name
                &&& c.description@ == described(t[a])
                &&& c.factoid@ == t[a]
            } by {
                if a < i {
                    assert(t[a] == fs.take(i as int)[a]);
                    assert(out@[2 * a] == before[2 * a]);
                    assert(out@[2 * a + 1] == before[2 * a + 1]);
                }
            }
        }
        i = i + 1;
    }
    assert(fs.take(fs.len() as int) =~= fs);
    out
}

/// The kinds of application command that Discord dispatches.
#[derive(Clone, Copy, Debug, PartialEq, Eq, Structural)]
pub enum CommandType {
    ChatInput,
    User,
    Message,
    Other,
}

/// What the factoids bot does with an invoked command.
pub enum DispatchAction {
    /// Nothing: the command is not one of a factoid.
    Ignore,
    /// Answers the interaction with the factoid's components.
    Respond { components: String },
    /// Replies to the targeted message with the factoid's components, then
    /// confirms to the user.
    ReplyToMessage { components: String },
}

/// Decides what to do with the command `name` of kind `kind` invoked in
/// `guild`: a slash command posts the factoid with that id, a message
/// context entry posts the factoid with that display name; anything else,
/// or a command outside a guild, is ignored.
pub fn dispatch_command(cache: &FactoidCache, guild: Option<GuildIdWrapper>, kind: CommandType, name: String) -> (r: DispatchAction)
    ensures
        match guild {
            None => r is Ignore,
            Some(g) => match kind {
                CommandType::ChatInput => match map_get(cache@, (g.0, name@)) {
                    Some(f) => r matches DispatchAction::Respond { components } && components@ == f.components,
                    None => r is Ignore,
                },
                CommandType::Message => match r {
                    DispatchAction::ReplyToMessage { components } => exists|f: FactoidView|
                        #[trigger] guild_factoids(cache@, g.0).contains(f) && f.display_name == name@ && components@
                            == f.components,
                    DispatchAction::Ignore => forall|f: FactoidView|
                        #[trigger] guild_factoids(cache@, g.0).contains(f) ==> f.display_name != name@,
                    _ => false,
                },
                _ => r is Ignore,
            },
        },
{
    match guild {
        None => DispatchAction::Ignore,
        Some(g) => match kind {
            CommandType::ChatInput => match get_factoid(cache, g, name) {
                Some(f) => DispatchAction::Respond { components: f.components },
                None => DispatchAction::Ignore,
            },
            CommandType::Message => match get_factoid_by_display_name(cache, g, name) {
                Some(f) => {
                    let ghost v = f@;
                    assert(guild_factoids(cache@, g.0).contains(v));
                    DispatchAction::ReplyToMessage { components: f.components }
                },
                None => DispatchAction::Ignore,
            },
            _ => DispatchAction::Ignore,
        },
    }
}

} // verus!
