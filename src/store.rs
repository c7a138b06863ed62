use vstd::prelude::*;
use vstd::string::StrSliceExecFns;
use vstd::string::StringExecFns;
use crate::mode::{ConnectionMode, mode_from_text, mode_name};

verus! {

/// The persisted configuration: the mode the user chose.
#[derive(Clone, Copy, Debug, PartialEq, Eq, Structural)]
pub struct DuckConfig {
    pub connection_mode: ConnectionMode,
}

/// The comment line that opens a stored configuration.
pub open spec fn header() -> Seq<char> {
    "# Duck Config\n"@
}

/// The line that records the mode, without its line break.
pub open spec fn mode_line(m: ConnectionMode) -> Seq<char> {
    "connection_mode: "@ + mode_name(m)
}

/// The document stored for a configuration.
pub open spec fn encoded(c: DuckConfig) -> Seq<char> {
    header() + mode_line(c.connection_mode) + "\n"@
}

/// What follows the leading comment lines of `s`; `in_comment` says that `s`
/// starts inside a comment line.
pub open spec fn body_of(s: Seq<char>, in_comment: bool) -> Seq<char>
    decreases s.len(),
{
    if s.len() == 0 {
        s
    } else if in_comment {
        body_of(s.drop_first(), s[0] != '\n')
    } else if s[0] == '#' {
        body_of(s.drop_first(), true)
    } else {
        s
    }
}

/// Whether `body` is the mode line of `m`, with or without a final line break.
pub open spec fn is_mode_body(body: Seq<char>, m: ConnectionMode) -> bool {
    body == mode_line(m) || body == mode_line(m) + "\n"@
}

/// The mode recorded in a document: leading comment lines, then the mode line.
pub open spec fn decoded(s: Seq<char>) -> Option<ConnectionMode> {
    let body = body_of(s, false);
    if is_mode_body(body, ConnectionMode::System) {
        Some(ConnectionMode::System)
    } else if is_mode_body(body, ConnectionMode::Tun) {
        Some(ConnectionMode::Tun)
    } else if is_mode_body(body, ConnectionMode::Combine) {
        Some(ConnectionMode::Combine)
    } else {
        None
    }
}

/// The configuration in effect for the stored document, if there is one: an
/// absent or unreadable document gives the default configuration.
pub open spec fn config_from(text: Option<Seq<char>>) -> DuckConfig {
    match text {
        Some(t) => match decoded(t) {
            Some(m) => DuckConfig { connection_mode: m },
            None => DuckConfig { connection_mode: ConnectionMode::System },
        },
        None => DuckConfig { connection_mode: ConnectionMode::System },
    }
}

/// The characters of a stored document, if there is one.
pub open spec fn text_view(text: Option<&str>) -> Option<Seq<char>> {
    match text {
        Some(t) => Some(t@),
        None => None,
    }
}

impl DuckConfig {
    /// The configuration of a fresh installation.
    pub fn template() -> (r: DuckConfig)
        ensures
            r.connection_mode == ConnectionMode::System,
    {
        DuckConfig { connection_mode: ConnectionMode::default() }
    }
}

impl Default for DuckConfig {
    fn default() -> (r: DuckConfig)
        ensures
            r.connection_mode == ConnectionMode::System,
    {
        DuckConfig::template()
    }
}

/// The document that stores `m`'s mode line, with its final line break.
fn mode_document(m: ConnectionMode, line_break: bool) -> (r: String)
    ensures
        r@ == (if line_break { mode_line(m) + "\n"@ } else { mode_line(m) }),
{
    let name = m.name();
    let line = "connection_mode: ".to_owned().concat(name.as_str());
    if line_break {
        line.concat("\n")
    } else {
        line
    }
}

/// Reads the configuration from the stored document (`None` when there is none,
/// or it could not be read); a document in another form gives the default.
pub fn read_from_config(text: Option<&str>) -> (r: DuckConfig)
    ensures
        r == config_from(text_view(text)),
{
    match text {
        None => DuckConfig::template(),
        Some(t) => {
            let len = t.unicode_len();
            let mut i: usize = 0;
            let mut in_comment = false;
            assert(t@.subrange(0, len as int) =~= t@);
            while i < len
                invariant
                    len == t@.len(),
                    i <= len,
                    body_of(t@.subrange(i as int, len as int), in_comment) == body_of(t@, false),
                ensures
                    body_of(t@, false) == t@.subrange(i as int, len as int),
                decreases len - i,
            {
                let c = t.get_char(i);
                assert(t@.subrange(i as int, len as int).drop_first()
                    =~= t@.subrange(i + 1, len as int));
                if in_comment {
                    in_comment = c != '\n';
                } else if c == '#' {
                    in_comment = true;
                } else {
                    break;
                }
                i = i + 1;
            }
            let body = t.substring_char(i, len).to_owned();
            if body == mode_document(ConnectionMode::System, false)
                || body == mode_document(ConnectionMode::System, true) {
                DuckConfig { connection_mode: ConnectionMode::System }
            } else if body == mode_document(ConnectionMode::Tun, false)
                || body == mode_document(ConnectionMode::Tun, true) {
                DuckConfig { connection_mode: ConnectionMode::Tun }
            } else if body == mode_document(ConnectionMode::Combine, false)
                || body == mode_document(ConnectionMode::Combine, true) {
                DuckConfig { connection_mode: ConnectionMode::Combine }
            } else {
                DuckConfig::template()
            }
        },
    }
}

/// The document that stores `config`.
pub fn write_to_config(config: &DuckConfig) -> (r: String)
    ensures
        r@ == encoded(*config),
{
    let doc = "# Duck Config\n".to_owned();
    let line = mode_document(config.connection_mode, true);
    let r = doc.concat(line.as_str());
    assert(r@ =~= encoded(*config));
    r
}

/// The mode in effect for the stored document (see `read_from_config`).
pub fn get_connection_mode(text: Option<&str>) -> (r: ConnectionMode)
    ensures
        r == config_from(text_view(text)).connection_mode,
        text.is_none() ==> r == ConnectionMode::System,
{
    read_from_config(text).connection_mode
}

/// Selects the mode that `mode` names (see `mode_from_text`) in the stored
/// configuration `text`; returns that mode and the document to store.
pub fn set_connection_mode(mode: &str, text: Option<&str>) -> (r: (ConnectionMode, String))
    ensures
        r.0 == mode_from_text(mode@),
        r.1@ == encoded(DuckConfig { connection_mode: r.0 }),
{
    let selected = ConnectionMode::from_text(mode);
    let mut config = read_from_config(text);
    config.connection_mode = selected;
    let doc = write_to_config(&config);
    (selected, doc)
}

/// Skipping a comment line that holds no line break but its last character
/// leaves what follows it.
proof fn lemma_skip_comment(line: Seq<char>, rest: Seq<char>)
    requires
        forall|i: int| 0 <= i < line.len() ==> line[i] != '\n',
    ensures
        body_of(line + "\n"@ + rest, true) == body_of(rest, false),
    decreases line.len(),
{
    reveal_strlit("\n");
    let s = line + "\n"@ + rest;
    if line.len() == 0 {
        assert(s.drop_first() =~= rest);
    } else {
        assert(s.drop_first() =~= line.drop_first() + "\n"@ + rest);
        lemma_skip_comment(line.drop_first(), rest);
    }
}

/// Reading back a stored configuration gives the configuration that was stored.
pub proof fn lemma_decode_encoded(c: DuckConfig)
    ensures
        decoded(encoded(c)) == Some(c.connection_mode),
        config_from(Some(encoded(c))) == c,
{
    reveal_strlit("# Duck Config\n");
    reveal_strlit("connection_mode: ");
    let body = mode_line(c.connection_mode) + "\n"@;
    let s = encoded(c);
    let line = header().subrange(1, 13);
    reveal_strlit("\n");
    assert(header().len() == 14 && header()[0] == '#' && header()[13] == '\n');
    assert(header().drop_first() =~= line + "\n"@);
    assert(s =~= header() + body);
    assert(s.drop_first() =~= line + "\n"@ + body);
    lemma_skip_comment(line, body);
    assert(body[0] == 'c');
    assert(body_of(s, false) == body);
    assert(is_mode_body(body, c.connection_mode));
    reveal_strlit("System");
    reveal_strlit("Tun");
    reveal_strlit("Combine");
    assert(mode_name(ConnectionMode::Tun).len() == 3);
}

/// Setting a mode and then getting it gives the mode that was set, for every
/// textual request.
pub proof fn lemma_set_then_get(mode: Seq<char>)
    ensures
        config_from(Some(encoded(DuckConfig { connection_mode: mode_from_text(mode) })))
            .connection_mode == mode_from_text(mode),
{
    lemma_decode_encoded(DuckConfig { connection_mode: mode_from_text(mode) });
}

} // verus!
