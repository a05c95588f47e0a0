//! Resolving the scan root and planning one builder expansion.
//!
//! The builder's own annotation may carry `path = "<relative path>"`
//! arguments; every other argument name is silently ignored. Each honored
//! argument joins its (quote-trimmed) value onto the directory of the file
//! where the builder was invoked. When that directory is unknown, or the
//! annotated item is not an enum declaration, the expansion is a silent
//! no-op: the item is to be returned unchanged.

use vstd::prelude::*;

verus! {

/// One argument of the builder's own annotation, as raw token text: a
/// `name = value` pair. `value` is rendered verbatim, so a string literal
/// still carries its quote characters.
pub struct BuilderArg {
    /// The argument's name, rendered as text.
    pub name: String,
    /// The argument's value tokens, rendered as text.
    pub value: String,
}

/// The annotated item as the builder sees it: whether it is an enum
/// declaration at all, and its declared name.
pub struct TargetItem {
    /// Whether the item is an enum declaration. Only an enum is replaced;
    /// any other declaration kind is returned unchanged.
    pub is_enum: bool,
    /// The item's declared name: the group name when `is_enum` holds.
    pub name: String,
}

/// `s` with every leading `"` character removed.
pub open spec fn trim_lead(s: Seq<char>) -> Seq<char>
    decreases s.len(),
{
    if s.len() > 0 && s[0] == '"' {
        trim_lead(s.drop_first())
    } else {
        s
    }
}

/// `s` with every trailing `"` character removed.
pub open spec fn trim_trail(s: Seq<char>) -> Seq<char>
    decreases s.len(),
{
    if s.len() > 0 && s.last() == '"' {
        trim_trail(s.drop_last())
    } else {
        s
    }
}

/// `s` with every leading and trailing `"` character removed: the path an
/// override argument's string literal denotes.
pub open spec fn unquoted(s: Seq<char>) -> Seq<char> {
    trim_trail(trim_lead(s))
}

/// The effect of one builder argument on the scan root: a `path` argument
/// joins its quote-trimmed value onto the root as a relative suffix; an
/// argument of any other name leaves the root unchanged.
pub open spec fn apply_arg(dir: Seq<char>, a: BuilderArg) -> Seq<char> {
    if a.name@ == "path"@ {
        dir + "/"@ + unquoted(a.value@)
    } else {
        dir
    }
}

/// The scan root after honoring the builder's arguments in order, starting
/// from the invoking file's directory.
pub open spec fn resolved_root(dir: Seq<char>, args: Seq<BuilderArg>) -> Seq<char>
    decreases args.len(),
{
    if args.len() == 0 {
        dir
    } else {
        apply_arg(resolved_root(dir, args.drop_last()), args.last())
    }
}

/// What one builder invocation is to do: leave the annotated item untouched,
/// or scan the named root and replace the item with the synthesized enum.
pub enum BuilderAction {
    /// Return the annotated item byte-for-byte unchanged.
    Keep,
    /// Scan this root for marked declarations and replace the item.
    Scan(String),
}

/// The action as a mathematical value: `None` for a no-op, `Some(root)` for
/// a scan of `root`.
pub open spec fn action_view(a: BuilderAction) -> Option<Seq<char>> {
    match a {
        BuilderAction::Keep => None,
        BuilderAction::Scan(root) => Some(root@),
    }
}

/// The action owed for one invocation: a no-op when the invoking file's
/// directory is unknown or the annotated item is not an enum declaration;
/// otherwise a scan of the resolved root.
pub open spec fn planned_action(
    call_site_dir: Option<String>,
    args: Seq<BuilderArg>,
    target: TargetItem,
) -> Option<Seq<char>> {
    match call_site_dir {
        None => None,
        Some(dir) => if target.is_enum {
            Some(resolved_root(dir@, args))
        } else {
            None
        },
    }
}

/// When the first `to` characters of `s` are all `"` and the one after them
/// (if any) is not, trimming the leading quotes is skipping those characters.
proof fn lemma_trim_lead_skip(s: Seq<char>, to: int)
    requires
        0 <= to <= s.len(),
        forall|j: int| 0 <= j < to ==> s[j] == '"',
        to == s.len() || s[to] != '"',
    ensures
        trim_lead(s) == s.skip(to),
    decreases to,
{
    if to == 0 {
        assert(s.skip(0) =~= s);
    } else {
        lemma_trim_lead_skip(s.drop_first(), to - 1);
        assert(s.drop_first().skip(to - 1) =~= s.skip(to));
    }
}

/// When the characters of `s` from `keep` on are all `"` and the one before
/// them (if any) is not, trimming the trailing quotes is keeping the first
/// `keep` characters.
proof fn lemma_trim_trail_take(s: Seq<char>, keep: int)
    requires
        0 <= keep <= s.len(),
        forall|j: int| keep <= j < s.len() ==> s[j] == '"',
        keep == 0 || s[keep - 1] != '"',
    ensures
        trim_trail(s) == s.take(keep),
    decreases s.len(),
{
    if keep == s.len() {
        assert(s.take(keep) =~= s);
    } else {
        lemma_trim_trail_take(s.drop_last(), keep);
        assert(s.drop_last().take(keep) =~= s.take(keep));
    }
}

/// Removes every leading and trailing `"` character of `s`: turns the
/// rendered text of an override argument's string literal into the path it
/// denotes.
pub fn trim_quote_marks(s: &String) -> (r: String)
    ensures
        r@ == unquoted(s@),
{
    let n = s.as_str().unicode_len();
    let mut lo: usize = 0;
    while lo < n && s.as_str().get_char(lo) == '"'
        invariant
            n == s@.len(),
            lo <= n,
            forall|j: int| 0 <= j < lo ==> s@[j] == '"',
        decreases n - lo,
    {
        lo = lo + 1;
    }
    let mut hi: usize = n;
    while hi > lo && s.as_str().get_char(hi - 1) == '"'
        invariant
            n == s@.len(),
            lo <= hi <= n,
            forall|j: int| hi <= j < n ==> s@[j] == '"',
        decreases hi,
    {
        hi = hi - 1;
    }
    let r = s.as_str().substring_char(lo, hi).to_owned();
    proof {
        lemma_trim_lead_skip(s@, lo as int);
        lemma_trim_trail_take(s@.skip(lo as int), hi - lo);
        assert(s@.skip(lo as int).take(hi - lo) =~= s@.subrange(lo as int, hi as int));
    }
    r
}

/// Resolves the scan root: starting from `dir`, the directory of the
/// invoking file, each `path` argument in order joins its quote-trimmed
/// value onto the root as a relative suffix; arguments with any other name
/// are silently ignored.
pub fn resolve_scan_root(dir: &String, args: &Vec<BuilderArg>) -> (root: String)
    ensures
        root@ == resolved_root(dir@, args@),
{
    let mut root = dir.clone();
    let path_name = String::from_str("path");
    let mut i: usize = 0;
    while i < args.len()
        invariant
            i <= args.len(),
            path_name@ == "path"@,
            root@ == resolved_root(dir@, args@.take(i as int)),
        decreases args.len() - i,
    {
        if args[i].name == path_name {
            root.append("/");
            let suffix = trim_quote_marks(&args[i].value);
            root.append(suffix.as_str());
        }
        assert(args@.take(i + 1).drop_last() =~= args@.take(i as int));
        assert(args@.take(i + 1).last() == args@[i as int]);
        i = i + 1;
    }
    assert(args@.take(args.len() as int) =~= args@);
    root
}

/// Plans one builder invocation: a silent no-op when the invoking file's
/// directory is unknown or the annotated item is not an enum declaration,
/// else a scan of the root resolved from the builder's arguments.
pub fn plan_expansion(
    call_site_dir: &Option<String>,
    args: &Vec<BuilderArg>,
    target: &TargetItem,
) -> (action: BuilderAction)
    ensures
        action_view(action) == planned_action(*call_site_dir, args@, *target),
{
    match call_site_dir {
        None => BuilderAction::Keep,
        Some(dir) => {
            if target.is_enum {
                BuilderAction::Scan(resolve_scan_root(dir, args))
            } else {
                BuilderAction::Keep
            }
        },
    }
}

} // verus!
