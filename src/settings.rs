use vstd::prelude::*;

verus! {

/// What the resolver reads of the plugin's initialization options, i.e. of
/// the `lsp` object inside them.
///
/// `server_path` holds the `serverPath` field when that field is a string.
/// `server_args` holds one entry per element of the `serverArgs` array, in
/// order: the element's text when it is a string, `None` otherwise. It is
/// empty when `serverArgs` is missing or is not an array.
#[derive(Clone, Debug)]
pub struct LspSettings {
    pub server_path: Option<String>,
    pub server_args: Vec<Option<String>>,
}

/// The texts of a sequence of strings.
pub open spec fn texts(v: Seq<String>) -> Seq<Seq<char>> {
    v.map_values(|s: String| s@)
}

/// The string entries of `serverArgs`, in their original order; the
/// entries that were not strings are dropped.
pub open spec fn string_args(entries: Seq<Option<String>>) -> Seq<Seq<char>>
    decreases entries.len(),
{
    if entries.len() == 0 {
        seq![]
    } else {
        let rest = string_args(entries.drop_last());
        match entries.last() {
            Some(s) => rest.push(s@),
            None => rest,
        }
    }
}

/// The user-chosen server location: `serverPath` when it is a non-empty string.
pub open spec fn explicit_path(s: LspSettings) -> Option<Seq<char>> {
    match s.server_path {
        Some(p) => if p@.len() > 0 {
            Some(p@)
        } else {
            None
        },
        None => None,
    }
}

/// Collects the arguments to hand to the server: every string entry of
/// `serverArgs`, in order.
pub fn server_args(settings: &LspSettings) -> (r: Vec<String>)
    ensures
        texts(r@) == string_args(settings.server_args@),
{
    let entries = &settings.server_args;
    let mut out: Vec<String> = Vec::new();
    let mut i: usize = 0;
    while i < entries.len()
        invariant
            i <= entries@.len(),
            texts(out@) == string_args(entries@.take(i as int)),
        decreases entries@.len() - i,
    {
        let ghost before = out@;
        match &entries[i] {
            Some(arg) => {
                out.push(arg.clone());
                assert(texts(out@) =~= texts(before).push(arg@));
            },
            None => {},
        }
        assert(entries@.take(i + 1).drop_last() =~= entries@.take(i as int));
        i += 1;
    }
    assert(entries@.take(i as int) =~= entries@);
    out
}

/// The user-chosen server location, if `serverPath` is a non-empty string.
pub fn explicit_server_path(settings: &LspSettings) -> (r: Option<&String>)
    ensures
        match r {
            Some(p) => explicit_path(*settings) == Some(p@),
            None => explicit_path(*settings) is None,
        },
{
    match &settings.server_path {
        Some(p) => if !p.as_str().is_empty() {
            Some(p)
        } else {
            None
        },
        None => None,
    }
}

} // verus!
