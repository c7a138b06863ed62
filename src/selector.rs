use vstd::prelude::*;
use vstd::string::StringSliceAdditionalSpecFns;
use crate::connection::{ConnectivityFlags, connected, is_connected};

verus! {

/// Whether URL encoding leaves the byte as it is: ASCII letters and digits and `-._~`.
pub open spec fn is_unreserved(b: u8) -> bool {
    (48 <= b <= 57) || (65 <= b <= 90) || (97 <= b <= 122) || b == 45 || b == 46 || b == 95
        || b == 126
}

/// The upper-case hexadecimal digit of `d` (below 16).
pub open spec fn hex_digit(d: u8) -> char {
    if d < 10 {
        (48 + d) as u8 as char
    } else {
        (55 + d) as u8 as char
    }
}

/// The percent-encoding of the bytes `bs`.
pub open spec fn url_encoded(bs: Seq<u8>) -> Seq<char>
    decreases bs.len(),
{
    if bs.len() == 0 {
        Seq::empty()
    } else {
        let b = bs[0];
        let head = if is_unreserved(b) {
            seq![b as char]
        } else {
            seq!['%', hex_digit(b / 16), hex_digit(b % 16)]
        };
        head + url_encoded(bs.drop_first())
    }
}

/// Relies on urlencoding::encode: each byte of the UTF-8 form of `s` stays
/// when it is an ASCII letter or digit or one of `-._~`, and becomes `%`
/// followed by two upper-case hexadecimal digits otherwise.
#[verifier::external_body]
fn encode_component(s: &str) -> (r: String)
    ensures
        r@ == url_encoded(s.spec_bytes()),
{
    urlencoding::encode(s).into_owned()
}

/// A JSON document as the engine reports it: object members keep their order.
#[derive(Debug)]
pub enum Json {
    Null,
    Bool(bool),
    Number,
    Str(String),
    Array(Vec<Json>),
    Object(Vec<(String, Json)>),
}

/// The first proxy group of kind `Selector` of the engine's `PROXY` provider.
#[derive(Debug)]
pub struct ProxySelector {
    pub name: String,
    pub current_proxy: String,
    pub proxies: Vec<String>,
}

/// A selector as plain values: its name, its current proxy, its proxies in order.
pub struct SelectorView {
    pub name: Seq<char>,
    pub current_proxy: Seq<char>,
    pub proxies: Seq<Seq<char>>,
}

impl View for ProxySelector {
    type V = SelectorView;

    open spec fn view(&self) -> SelectorView {
        SelectorView {
            name: self.name@,
            current_proxy: self.current_proxy@,
            proxies: self.proxies@.map_values(|p: String| p@),
        }
    }
}

/// The value of the first member named `key` among `members`.
pub open spec fn member(members: Seq<(String, Json)>, key: Seq<char>) -> Option<Json>
    decreases members.len(),
{
    if members.len() == 0 {
        None
    } else if members[0].0@ == key {
        Some(members[0].1)
    } else {
        member(members.drop_first(), key)
    }
}

/// The member `key` of `v`, when `v` is an object that has one.
pub open spec fn field(v: Option<Json>, key: Seq<char>) -> Option<Json> {
    match v {
        Some(Json::Object(members)) => member(members@, key),
        _ => None,
    }
}

/// The text of `v`, when it is a string.
pub open spec fn text_of(v: Option<Json>) -> Option<Seq<char>> {
    match v {
        Some(Json::Str(s)) => Some(s@),
        _ => None,
    }
}

/// The text of `v`, or the empty text when it is no string.
pub open spec fn text_or_empty(v: Option<Json>) -> Seq<char> {
    match text_of(v) {
        Some(s) => s,
        None => Seq::empty(),
    }
}

/// The strings among `items`, in order.
pub open spec fn strings_in(items: Seq<Json>) -> Seq<Seq<char>>
    decreases items.len(),
{
    if items.len() == 0 {
        Seq::empty()
    } else {
        match items[0] {
            Json::Str(s) => seq![s@] + strings_in(items.drop_first()),
            _ => strings_in(items.drop_first()),
        }
    }
}

/// Whether the group `g` is of kind `Selector`.
pub open spec fn is_selector(g: Json) -> bool {
    text_of(field(Some(g), "type"@)) == Some("Selector"@)
}

/// The selector that the group `g` describes.
pub open spec fn selector_of(g: Json) -> SelectorView {
    SelectorView {
        name: text_or_empty(field(Some(g), "name"@)),
        current_proxy: text_or_empty(field(Some(g), "now"@)),
        proxies: match field(Some(g), "all"@) {
            Some(Json::Array(items)) => strings_in(items@),
            _ => Seq::empty(),
        },
    }
}

/// The first group of kind `Selector` among `groups`.
pub open spec fn first_selector(groups: Seq<Json>) -> Option<SelectorView>
    decreases groups.len(),
{
    if groups.len() == 0 {
        None
    } else if is_selector(groups[0]) {
        Some(selector_of(groups[0]))
    } else {
        first_selector(groups.drop_first())
    }
}

/// The selector the engine's report `root` holds: the first group of kind
/// `Selector` in the `proxies` of the provider `PROXY` of its `providers`.
pub open spec fn selector_in(root: Json) -> Option<SelectorView> {
    match field(field(field(Some(root), "providers"@), "PROXY"@), "proxies"@) {
        Some(Json::Array(groups)) => first_selector(groups@),
        _ => None,
    }
}

/// The value a reference points at, if there is one.
pub open spec fn deref_json(v: Option<&Json>) -> Option<Json> {
    match v {
        Some(j) => Some(*j),
        None => None,
    }
}

/// The plain values of a selector, if there is one.
pub open spec fn selector_view(r: Option<ProxySelector>) -> Option<SelectorView> {
    match r {
        Some(s) => Some(s@),
        None => None,
    }
}

impl Json {
    /// The member `key` of this value, when it is an object that has one.
    pub fn get(&self, key: &str) -> (r: Option<&Json>)
        ensures
            deref_json(r) == field(Some(*self), key@),
    {
        match self {
            Json::Object(members) => {
                let wanted = key.to_owned();
                let mut i: usize = 0;
                assert(members@.subrange(0, members@.len() as int) =~= members@);
                while i < members.len()
                    invariant
                        i <= members@.len(),
                        wanted@ == key@,
                        *self == Json::Object(*members),
                        member(members@.subrange(i as int, members@.len() as int), key@)
                            == member(members@, key@),
                    decreases members@.len() - i,
                {
                    assert(members@.subrange(i as int, members@.len() as int).drop_first()
                        =~= members@.subrange(i + 1, members@.len() as int));
                    assert(members@.subrange(i as int, members@.len() as int)[0] == members@[i as int]);
                    if members[i].0 == wanted {
                        return Some(&members[i].1);
                    }
                    i = i + 1;
                }
                None
            },
            _ => None,
        }
    }

    /// The text of this value, when it is a string.
    pub fn as_str(&self) -> (r: Option<&String>)
        ensures
            r.is_some() == (text_of(Some(*self)).is_some()),
            r.is_some() ==> text_of(Some(*self)) == Some(r.unwrap()@),
    {
        match self {
            Json::Str(s) => Some(s),
            _ => None,
        }
    }
}

/// The text of `v`, or the empty text when it is no string.
fn text_or_default(v: Option<&Json>) -> (r: String)
    ensures
        r@ == text_or_empty(deref_json(v)),
{
    match v {
        Some(Json::Str(s)) => s.clone(),
        _ => String::new(),
    }
}

/// The strings among `items`, in order.
fn collect_strings(items: &Vec<Json>) -> (r: Vec<String>)
    ensures
        r@.map_values(|p: String| p@) == strings_in(items@),
{
    let mut out: Vec<String> = Vec::new();
    let mut i: usize = 0;
    assert(items@.subrange(0, items@.len() as int) =~= items@);
    while i < items.len()
        invariant
            i <= items@.len(),
            out@.map_values(|p: String| p@) + strings_in(items@.subrange(i as int, items@.len() as int))
                == strings_in(items@),
        decreases items@.len() - i,
    {
        let ghost rest = items@.subrange(i as int, items@.len() as int);
        assert(rest.drop_first() =~= items@.subrange(i + 1, items@.len() as int));
        let ghost before = out@.map_values(|p: String| p@);
        match &items[i] {
            Json::Str(s) => {
                out.push(s.clone());
                assert(out@.map_values(|p: String| p@) =~= before.push(s@));
                assert(before.push(s@) + strings_in(rest.drop_first())
                    =~= before + (seq![s@] + strings_in(rest.drop_first())));
            },
            _ => {},
        }
        i = i + 1;
    }
    assert(items@.subrange(i as int, items@.len() as int) =~= Seq::<Json>::empty());
    assert(out@.map_values(|p: String| p@) + Seq::<Seq<char>>::empty()
        =~= out@.map_values(|p: String| p@));
    out
}

/// The selector of the engine's report: `None` when the engine is not running
/// (`report` is `None`), and when the `PROXY` provider has no group of kind
/// `Selector`; otherwise the first such group.
pub fn get_proxies_selector(report: Option<&Json>) -> (r: Option<ProxySelector>)
    ensures
        report.is_none() ==> r.is_none(),
        report.is_some() ==> selector_view(r) == selector_in(*report.unwrap()),
{
    let root = match report {
        Some(v) => v,
        None => {
            return None;
        },
    };
    let providers = match root.get("providers") {
        Some(v) => v,
        None => {
            return None;
        },
    };
    let provider = match providers.get("PROXY") {
        Some(v) => v,
        None => {
            return None;
        },
    };
    let groups = match provider.get("proxies") {
        Some(Json::Array(items)) => items,
        _ => {
            return None;
        },
    };
    let selector = "Selector".to_owned();
    let mut i: usize = 0;
    assert(groups@.subrange(0, groups@.len() as int) =~= groups@);
    while i < groups.len()
        invariant
            i <= groups@.len(),
            selector@ == "Selector"@,
            report == Some(root),
            field(field(field(Some(*root), "providers"@), "PROXY"@), "proxies"@)
                == Some(Json::Array(*groups)),
            first_selector(groups@.subrange(i as int, groups@.len() as int))
                == first_selector(groups@),
        decreases groups@.len() - i,
    {
        assert(groups@.subrange(i as int, groups@.len() as int).drop_first()
            =~= groups@.subrange(i + 1, groups@.len() as int));
        let group = &groups[i];
        assert(groups@.subrange(i as int, groups@.len() as int)[0] == *group);
        let kind = match group.get("type") {
            Some(v) => v.as_str(),
            None => None,
        };
        let found = match kind {
            Some(k) => *k == selector,
            None => false,
        };
        if found {
            let name = text_or_default(group.get("name"));
            let current_proxy = text_or_default(group.get("now"));
            let proxies = match group.get("all") {
                Some(Json::Array(items)) => collect_strings(items),
                _ => Vec::new(),
            };
            let r = ProxySelector { name, current_proxy, proxies };
            assert(r@.proxies =~= selector_of(*group).proxies);
            return Some(r);
        }
        i = i + 1;
    }
    None
}

/// Among groups, the first of kind `Selector` is the one reported, and none is
/// reported when no group is of that kind.
pub proof fn lemma_first_selector(groups: Seq<Json>)
    ensures
        (forall|k: int| 0 <= k < groups.len() ==> !is_selector(#[trigger] groups[k]))
            ==> first_selector(groups) is None,
        forall|j: int|
            0 <= j < groups.len() && is_selector(#[trigger] groups[j]) && (forall|k: int|
                0 <= k < j ==> !is_selector(#[trigger] groups[k])) ==> first_selector(groups)
                == Some(selector_of(groups[j])),
    decreases groups.len(),
{
    if groups.len() > 0 {
        let rest = groups.drop_first();
        lemma_first_selector(rest);
        assert forall|j: int|
            0 <= j < groups.len() && is_selector(#[trigger] groups[j]) && (forall|k: int|
                0 <= k < j ==> !is_selector(#[trigger] groups[k])) implies first_selector(groups)
            == Some(selector_of(groups[j])) by {
            if j > 0 {
                assert(!is_selector(groups[0]));
                assert(rest[j - 1] == groups[j]);
                assert forall|k: int| 0 <= k < j - 1 implies !is_selector(#[trigger] rest[k]) by {
                    assert(rest[k] == groups[k + 1]);
                }
            }
        }
        if forall|k: int| 0 <= k < groups.len() ==> !is_selector(#[trigger] groups[k]) {
            assert(!is_selector(groups[0]));
            assert forall|k: int| 0 <= k < rest.len() implies !is_selector(#[trigger] rest[k]) by {
                assert(rest[k] == groups[k + 1]);
            }
        }
    }
}

/// A request to make `proxy` the active member of the proxy group `group`.
#[derive(Debug)]
pub struct ProxyChange {
    pub group: String,
    pub proxy: String,
    /// The group's name as the engine's addressing wants it: URL-encoded.
    pub encoded_group: String,
}

/// What follows a successful change: the announcement, with the group's name
/// as the user gave it, and whether the engine's connections must be closed.
#[derive(Debug)]
pub struct ProxyChanged {
    pub group: String,
    pub proxy: String,
    pub close_connections: bool,
}

/// Prepares the change of the active proxy of `group` to `proxy`: the engine
/// is to be called with the URL-encoded group name.
pub fn set_current_proxy(group: &str, proxy: &str) -> (r: ProxyChange)
    ensures
        r.group@ == group@,
        r.proxy@ == proxy@,
        r.encoded_group@ == url_encoded(group.spec_bytes()),
{
    ProxyChange {
        group: group.to_owned(),
        proxy: proxy.to_owned(),
        encoded_group: encode_component(group),
    }
}

impl ProxyChange {
    /// The follow-up of the engine's answer `engine`: its error, verbatim, or the
    /// announcement of the unencoded names and, when routing is on under
    /// `flags`, the closing of the engine's connections.
    pub fn complete(&self, engine: Result<(), String>, flags: &ConnectivityFlags) -> (r: Result<
        ProxyChanged,
        String,
    >)
        ensures
            engine is Err ==> r == Err::<ProxyChanged, String>(engine->Err_0),
            engine is Ok ==> r is Ok,
            r is Ok ==> r->Ok_0.group@ == self.group@ && r->Ok_0.proxy@ == self.proxy@
                && r->Ok_0.close_connections == connected(*flags),
    {
        match engine {
            Err(e) => Err(e),
            Ok(()) => Ok(
                ProxyChanged {
                    group: self.group.clone(),
                    proxy: self.proxy.clone(),
                    close_connections: is_connected(flags),
                },
            ),
        }
    }
}

} // verus!
