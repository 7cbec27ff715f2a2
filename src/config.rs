use vstd::prelude::*;
use crate::text::same_text;

verus! {

/// The parts of a structured initialization-options value that the plugin
/// reads: strings, arrays and objects. Every other kind of value (numbers,
/// booleans, null) is `Other`, which the plugin never looks into.
#[derive(Debug)]
pub enum ConfigValue {
    Str(String),
    Array(Vec<ConfigValue>),
    /// Members in their order; a lookup takes the first member with the key.
    Object(Vec<(String, ConfigValue)>),
    Other,
}

/// Which server the user asked for.
#[derive(Debug)]
pub enum ServerChoice {
    /// A server path given in the options, with its arguments.
    Explicit { path: String, args: Vec<String> },
    /// No usable server path: provision the released binary.
    UseDefault,
}

/// First member of `entries` whose key is `key`.
pub open spec fn find_member(entries: Seq<(String, ConfigValue)>, key: Seq<char>) -> Option<ConfigValue>
    decreases entries.len(),
{
    if entries.len() == 0 {
        None
    } else if entries[0].0@ == key {
        Some(entries[0].1)
    } else {
        find_member(entries.drop_first(), key)
    }
}

/// The member `key` of `v`, if `v` is an object that has one.
pub open spec fn member(v: ConfigValue, key: Seq<char>) -> Option<ConfigValue> {
    match v {
        ConfigValue::Object(entries) => find_member(entries@, key),
        _ => None,
    }
}

/// The strings among `items`, in order; other items are skipped.
pub open spec fn string_items(items: Seq<ConfigValue>) -> Seq<Seq<char>>
    decreases items.len(),
{
    if items.len() == 0 {
        Seq::empty()
    } else {
        let rest = string_items(items.drop_last());
        match items.last() {
            ConfigValue::Str(s) => rest.push(s@),
            _ => rest,
        }
    }
}

/// The `lsp` section of the options.
pub open spec fn lsp_section(options: Option<ConfigValue>) -> Option<ConfigValue> {
    match options {
        Some(o) => member(o, "lsp"@),
        None => None,
    }
}

/// The arguments that `lsp.serverArgs` lists: its string elements in order,
/// or none when it is missing or not an array.
pub open spec fn configured_args(options: Option<ConfigValue>) -> Seq<Seq<char>> {
    match lsp_section(options) {
        Some(lsp) => match member(lsp, "serverArgs"@) {
            Some(ConfigValue::Array(items)) => string_items(items@),
            _ => Seq::empty(),
        },
        None => Seq::empty(),
    }
}

/// The server path that `lsp.serverPath` gives, when it is a non-empty string.
pub open spec fn configured_path(options: Option<ConfigValue>) -> Option<Seq<char>> {
    match lsp_section(options) {
        Some(lsp) => match member(lsp, "serverPath"@) {
            Some(ConfigValue::Str(p)) => if p@.len() > 0 {
                Some(p@)
            } else {
                None
            },
            _ => None,
        },
        None => None,
    }
}

/// The characters of each string, in order.
pub open spec fn texts(v: Seq<String>) -> Seq<Seq<char>> {
    v.map_values(|s: String| s@)
}

impl ServerChoice {
    /// What `resolve_config` decides for `options`.
    pub open spec fn decided_for(self, options: Option<ConfigValue>) -> bool {
        match configured_path(options) {
            Some(p) => match self {
                ServerChoice::Explicit { path, args } => path@ == p && texts(args@)
                    == configured_args(options),
                ServerChoice::UseDefault => false,
            },
            None => self is UseDefault,
        }
    }
}

/// The member `key` of `v`, if `v` is an object that has one.
pub fn member_of<'a>(v: &'a ConfigValue, key: &str) -> (r: Option<&'a ConfigValue>)
    ensures
        match r {
            Some(m) => member(*v, key@) == Some(*m),
            None => member(*v, key@) is None,
        },
{
    match v {
        ConfigValue::Object(entries) => {
            let mut i: usize = 0;
            proof {
                assert(entries@.skip(0) == entries@);
                assert(member(*v, key@) == find_member(entries@, key@));
            }
            while i < entries.len()
                invariant
                    i <= entries@.len(),
                    member(*v, key@) == find_member(entries@, key@),
                    find_member(entries@, key@) == find_member(entries@.skip(i as int), key@),
                decreases entries@.len() - i,
            {
                proof {
                    assert(entries@.skip(i as int).drop_first() == entries@.skip(i + 1));
                    assert(entries@.skip(i as int)[0] == entries@[i as int]);
                }
                if same_text(entries[i].0.as_str(), key) {
                    proof {
                        let rest = entries@.skip(i as int);
                        assert(rest[0].0@ == key@);
                    }
                    return Some(&entries[i].1);
                }
                i = i + 1;
            }
            None
        },
        _ => None,
    }
}

/// The string elements of `items`, in order.
pub fn collect_strings(items: &Vec<ConfigValue>) -> (r: Vec<String>)
    ensures
        texts(r@) == string_items(items@),
{
    let mut out: Vec<String> = Vec::new();
    let mut i: usize = 0;
    while i < items.len()
        invariant
            i <= items@.len(),
            texts(out@) == string_items(items@.subrange(0, i as int)),
        decreases items@.len() - i,
    {
        proof {
            let next = items@.subrange(0, i + 1);
            assert(next.drop_last() == items@.subrange(0, i as int));
            assert(next.last() == items@[i as int]);
        }
        match &items[i] {
            ConfigValue::Str(s) => {
                let ghost before = out@;
                out.push(s.clone());
                proof {
                    assert(texts(out@) =~= texts(before).push(s@));
                }
            },
            _ => {},
        }
        i = i + 1;
    }
    proof {
        assert(items@.subrange(0, items@.len() as int) == items@);
    }
    out
}

/// Reads `lsp.serverPath` and `lsp.serverArgs` from the options. A missing
/// section or a value of the wrong kind is not an error: it reads as absent.
pub fn resolve_config(options: &Option<ConfigValue>) -> (r: ServerChoice)
    ensures
        r.decided_for(*options),
{
    let lsp = match options {
        Some(o) => member_of(o, "lsp"),
        None => None,
    };
    let lsp = match lsp {
        Some(l) => l,
        None => return ServerChoice::UseDefault,
    };
    let args = match member_of(lsp, "serverArgs") {
        Some(ConfigValue::Array(items)) => collect_strings(items),
        _ => Vec::new(),
    };
    assert(texts(args@) =~= configured_args(*options));
    match member_of(lsp, "serverPath") {
        Some(ConfigValue::Str(p)) => {
            if p.unicode_len() > 0 {
                ServerChoice::Explicit { path: p.clone(), args }
            } else {
                ServerChoice::UseDefault
            }
        },
        _ => ServerChoice::UseDefault,
    }
}

} // verus!
