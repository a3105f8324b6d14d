use vstd::prelude::*;
use vstd::string::StringExecFns;

verus! {

/// Position `i` of `hay` is the start of a line: the start of the text or
/// just after a line feed.
pub open spec fn starts_line(hay: Seq<char>, i: int) -> bool {
    i == 0 || (0 < i <= hay.len() && hay[i - 1] == '\n')
}

/// Some line of `hay` begins with the literal text `lit`.
pub open spec fn has_line_starting_with(hay: Seq<char>, lit: Seq<char>) -> bool {
    exists|i: int|
        0 <= i && i + lit.len() <= hay.len() && starts_line(hay, i) && #[trigger] hay.subrange(
            i,
            i + lit.len(),
        ) == lit
}

/// A listing shows `name` when one of its lines begins with the name
/// followed at once by the delimiter of the listing's format.
pub open spec fn listed(hay: Seq<char>, name: Seq<char>, delim: Seq<char>) -> bool {
    has_line_starting_with(hay, name + delim)
}

/// The names, in their order and with their repetitions, that the listing
/// does not show.
pub open spec fn missing_names(hay: Seq<char>, names: Seq<Seq<char>>, delim: Seq<char>) -> Seq<
    Seq<char>,
>
    decreases names.len(),
{
    if names.len() == 0 {
        Seq::empty()
    } else {
        let rest = missing_names(hay, names.drop_last(), delim);
        if listed(hay, names.last(), delim) {
            rest
        } else {
            rest.push(names.last())
        }
    }
}

/// With a listing that shows every name of `present` and none of `absent`,
/// two sets without a common name, the names found missing among names drawn
/// from both sets are exactly those of `absent`, in their order.
pub proof fn lemma_missing_are_the_absent(
    hay: Seq<char>,
    names: Seq<Seq<char>>,
    delim: Seq<char>,
    present: Set<Seq<char>>,
    absent: Set<Seq<char>>,
)
    requires
        present.disjoint(absent),
        forall|n: Seq<char>| present.contains(n) ==> listed(hay, n, delim),
        forall|n: Seq<char>| absent.contains(n) ==> !listed(hay, n, delim),
        forall|i: int|
            0 <= i < names.len() ==> present.contains(#[trigger] names[i]) || absent.contains(
                names[i],
            ),
    ensures
        missing_names(hay, names, delim) == names.filter(|n: Seq<char>| absent.contains(n)),
    decreases names.len(),
{
    reveal(Seq::filter);
    if names.len() > 0 {
        let init = names.drop_last();
        assert forall|i: int| 0 <= i < init.len() implies present.contains(#[trigger] init[i])
            || absent.contains(init[i]) by {
            assert(init[i] == names[i]);
        }
        lemma_missing_are_the_absent(hay, init, delim, present, absent);
        assert(present.contains(names[names.len() - 1]) || absent.contains(names[names.len() - 1]));
    }
}

/// A listing whose one line is for `x` followed by a hyphen and more text
/// does not show `x`: the line for a longer name never counts for a prefix
/// of it.
pub proof fn lemma_longer_name_does_not_count(
    x: Seq<char>,
    tail: Seq<char>,
    delim: Seq<char>,
)
    requires
        delim.len() > 0,
        delim[0] != '-',
        !x.contains('\n'),
        !tail.contains('\n'),
        !delim.contains('\n'),
    ensures
        !listed(x + seq!['-'] + tail + delim + seq!['\n'], x, delim),
        missing_names(x + seq!['-'] + tail + delim + seq!['\n'], seq![x], delim) == seq![x],
{
    let line = x + seq!['-'] + tail + delim;
    let hay = line + seq!['\n'];
    let lit = x + delim;
    assert forall|k: int| 0 <= k < line.len() implies #[trigger] hay[k] != '\n' by {
        assert(hay[k] == line[k]);
        if k < x.len() {
            assert(line[k] == x[k]);
        } else if k == x.len() {
            assert(line[k] == '-');
        } else if k < x.len() + 1 + tail.len() {
            assert(line[k] == tail[k - x.len() - 1]);
        } else {
            assert(line[k] == delim[k - x.len() - 1 - tail.len()]);
        }
    }
    if listed(hay, x, delim) {
        let i = choose|i: int|
            0 <= i && i + lit.len() <= hay.len() && starts_line(hay, i) && #[trigger] hay.subrange(
                i,
                i + lit.len(),
            ) == lit;
        if i == 0 {
            assert(hay.subrange(0, lit.len() as int)[x.len() as int] == hay[x.len() as int]);
            assert(lit[x.len() as int] == delim[0]);
            assert(hay[x.len() as int] == '-');
        } else {
            assert(hay[i - 1] == '\n');
        }
    }
    let names = seq![x];
    assert(names.drop_last() =~= Seq::<Seq<char>>::empty());
    assert(missing_names(hay, names.drop_last(), delim) == Seq::<Seq<char>>::empty());
    assert(Seq::<Seq<char>>::empty().push(x) =~= seq![x]);
}

/// Every name that the matcher reports is one that the listing does not show.
pub proof fn lemma_missing_not_listed(hay: Seq<char>, names: Seq<Seq<char>>, delim: Seq<char>)
    ensures
        forall|i: int|
            0 <= i < missing_names(hay, names, delim).len() ==> !listed(
                hay,
                #[trigger] missing_names(hay, names, delim)[i],
                delim,
            ),
    decreases names.len(),
{
    if names.len() > 0 {
        lemma_missing_not_listed(hay, names.drop_last(), delim);
        let rest = missing_names(hay, names.drop_last(), delim);
        let m = missing_names(hay, names, delim);
        assert forall|i: int| 0 <= i < m.len() implies !listed(hay, #[trigger] m[i], delim) by {
            if i < rest.len() {
                assert(m[i] == rest[i]);
            }
        }
    }
}

/// Names none of which the listing shows are all reported, in order.
pub proof fn lemma_all_unlisted_all_missing(hay: Seq<char>, names: Seq<Seq<char>>, delim: Seq<char>)
    requires
        forall|i: int| 0 <= i < names.len() ==> !listed(hay, #[trigger] names[i], delim),
    ensures
        missing_names(hay, names, delim) == names,
    decreases names.len(),
{
    if names.len() > 0 {
        let init = names.drop_last();
        assert forall|i: int| 0 <= i < init.len() implies !listed(hay, #[trigger] init[i], delim) by {
            assert(init[i] == names[i]);
        }
        lemma_all_unlisted_all_missing(hay, init, delim);
        assert(init.push(names.last()) =~= names);
    }
}

/// Matching the names that the matcher reported against the same listing
/// reports them all again: the matcher is idempotent.
pub proof fn lemma_missing_idempotent(hay: Seq<char>, names: Seq<Seq<char>>, delim: Seq<char>)
    ensures
        missing_names(hay, missing_names(hay, names, delim), delim) == missing_names(
            hay,
            names,
            delim,
        ),
{
    lemma_missing_not_listed(hay, names, delim);
    lemma_all_unlisted_all_missing(hay, missing_names(hay, names, delim), delim);
}

/// The texts of a sequence of strings.
pub open spec fn texts(s: Seq<String>) -> Seq<Seq<char>> {
    s.map_values(|x: String| x@)
}

/// The delimiter after a crate's name in `cargo install --list`.
pub open spec fn crate_delim() -> Seq<char> {
    seq![' ', 'v']
}

/// The delimiter after a target's name in `rustup target list`.
pub open spec fn target_delim() -> Seq<char> {
    seq![' ', '(', 'i', 'n', 's', 't', 'a', 'l', 'l', 'e', 'd', ')']
}

/// The longest literal, in characters, that is always searched for. Its
/// pattern, at most four bytes a character, compiles far below the regex
/// crate's default limit of 10 MiB.
pub const MAX_LITERAL_LEN: usize = 4096;

/// Every name, with the delimiter after it, is short enough to be searched for.
pub open spec fn searchable(names: Seq<Seq<char>>, delim: Seq<char>) -> bool {
    forall|i: int| 0 <= i < names.len() ==> #[trigger] names[i].len() + delim.len() <= MAX_LITERAL_LEN
}

/// Relies on regex::escape, regex::Regex::new and regex::Regex::is_match:
/// the pattern `(?m)^` followed by the escaped literal matches where a line
/// (a stretch after the start or after a line feed) begins with the literal.
/// `Regex::new` fails only on an invalid pattern (an escaped literal is valid)
/// or past its size limit: the result is then `None`, never for a literal of
/// at most `MAX_LITERAL_LEN` characters.
#[verifier::external_body]
fn line_starts_with(hay: &str, lit: &str) -> (r: Option<bool>)
    ensures
        r matches Some(b) ==> b == has_line_starting_with(hay@, lit@),
        lit@.len() <= MAX_LITERAL_LEN ==> r is Some,
{
    match regex::Regex::new(&format!("(?m)^{}", regex::escape(lit))) {
        Ok(re) => Some(re.is_match(hay)),
        Err(_) => None,
    }
}

/// The names of `names` that no line of `listing` shows with `delim` after
/// them; `None` only when a name is too long to be searched for.
fn find_missing(listing: &str, names: &[String], delim: &str) -> (r: Option<Vec<String>>)
    ensures
        r matches Some(v) ==> texts(v@) == missing_names(listing@, texts(names@), delim@),
        searchable(texts(names@), delim@) ==> r is Some,
{
    let mut missing: Vec<String> = Vec::new();
    let mut i: usize = 0;
    while i < names.len()
        invariant
            i <= names@.len(),
            texts(missing@) == missing_names(listing@, texts(names@).take(i as int), delim@),
        decreases names@.len() - i,
    {
        let name = &names[i];
        let lit = name.clone().concat(delim);
        let found = line_starts_with(listing, lit.as_str());
        proof {
            let pre = texts(names@).take(i as int);
            let next = texts(names@).take(i as int + 1);
            assert(next.drop_last() == pre);
            assert(next.last() == name@);
        }
        match found {
            None => {
                assert(texts(names@)[i as int] == name@);
                return None;
            },
            Some(true) => {},
            Some(false) => {
                let ghost before = missing@;
                missing.push(name.clone());
                assert(texts(missing@) == texts(before).push(name@));
            },
        }
        i = i + 1;
    }
    assert(texts(names@).take(names@.len() as int) == texts(names@));
    Some(missing)
}


/// The names of `names` for which no line of the `cargo install --list`
/// output `stdout` begins with the name, a space and `v`; `None` only when a
/// name is too long to be searched for.
pub fn find_missing_crates(stdout: &str, names: &[String]) -> (r: Option<Vec<String>>)
    ensures
        r matches Some(v) ==> texts(v@) == missing_names(stdout@, texts(names@), crate_delim()),
        searchable(texts(names@), crate_delim()) ==> r is Some,
{
    proof {
        reveal_strlit(" v");
        assert(" v"@ =~= crate_delim());
    }
    find_missing(stdout, names, " v")
}

/// The targets of `targets` for which no line of the `rustup target list`
/// output `stdout` begins with the target and ` (installed)`; `None` only
/// when a target is too long to be searched for.
pub fn find_missing_targets(stdout: &str, targets: &[String]) -> (r: Option<Vec<String>>)
    ensures
        r matches Some(v) ==> texts(v@) == missing_names(stdout@, texts(targets@), target_delim()),
        searchable(texts(targets@), target_delim()) ==> r is Some,
{
    proof {
        reveal_strlit(" (installed)");
        assert(" (installed)"@ =~= target_delim());
    }
    find_missing(stdout, targets, " (installed)")
}

/// The parts, each between `wrap` and `wrap`, one after the other with `sep`
/// between two neighbours.
pub open spec fn joined(parts: Seq<Seq<char>>, sep: Seq<char>, wrap: Seq<char>) -> Seq<char>
    decreases parts.len(),
{
    if parts.len() == 0 {
        Seq::empty()
    } else if parts.len() == 1 {
        wrap + parts[0] + wrap
    } else {
        joined(parts.drop_last(), sep, wrap) + sep + wrap + parts.last() + wrap
    }
}

/// Joins the parts, each between two copies of `wrap`, with `sep`.
pub fn join_wrapped(parts: &[String], sep: &str, wrap: &str) -> (r: String)
    ensures
        r@ == joined(texts(parts@), sep@, wrap@),
{
    let mut out = String::new();
    let mut i: usize = 0;
    while i < parts.len()
        invariant
            i <= parts@.len(),
            out@ == joined(texts(parts@).take(i as int), sep@, wrap@),
        decreases parts@.len() - i,
    {
        proof {
            let next = texts(parts@).take(i as int + 1);
            assert(next.drop_last() == texts(parts@).take(i as int));
            assert(next.last() == parts@[i as int]@);
        }
        if i > 0 {
            out.append(sep);
        }
        out.append(wrap);
        out.append(parts[i].as_str());
        out.append(wrap);
        i = i + 1;
        proof {
            if i == 1 {
                assert(Seq::<char>::empty() + wrap@ == wrap@);
            }
        }
    }
    assert(texts(parts@).take(parts@.len() as int) == texts(parts@));
    out
}

/// The command that installs the missing crates.
pub open spec fn crates_remedy_text(missing: Seq<Seq<char>>) -> Seq<char> {
    "cargo install --locked "@ + joined(missing, " "@, ""@)
}

/// The command that installs the missing targets.
pub open spec fn targets_remedy_text(missing: Seq<Seq<char>>) -> Seq<char> {
    "rustup target install "@ + joined(missing, " "@, ""@)
}

/// The report of missing crates.
pub open spec fn crates_message_text(missing: Seq<Seq<char>>) -> Seq<char> {
    "Rust crates "@ + joined(missing, ", "@, "`"@) + " do not appear to be installed"@
}

/// The report of missing targets.
pub open spec fn targets_message_text(missing: Seq<Seq<char>>) -> Seq<char> {
    "Rust target "@ + joined(missing, ", "@, "`"@) + " does not appear to be installed"@
}

/// `cargo install --locked` followed by the crate names, separated by spaces.
pub fn crates_remedy(missing: &[String]) -> (r: String)
    ensures
        r@ == crates_remedy_text(texts(missing@)),
{
    String::from_str("cargo install --locked ").concat(join_wrapped(missing, " ", "").as_str())
}

/// `rustup target install` followed by the targets, separated by spaces.
pub fn targets_remedy(missing: &[String]) -> (r: String)
    ensures
        r@ == targets_remedy_text(texts(missing@)),
{
    String::from_str("rustup target install ").concat(join_wrapped(missing, " ", "").as_str())
}

/// Names the missing crates, each between backquotes.
pub fn crates_message(missing: &[String]) -> (r: String)
    ensures
        r@ == crates_message_text(texts(missing@)),
{
    String::from_str("Rust crates ").concat(join_wrapped(missing, ", ", "`").as_str()).concat(
        " do not appear to be installed",
    )
}

/// Names the missing targets, each between backquotes.
pub fn targets_message(missing: &[String]) -> (r: String)
    ensures
        r@ == targets_message_text(texts(missing@)),
{
    String::from_str("Rust target ").concat(join_wrapped(missing, ", ", "`").as_str()).concat(
        " does not appear to be installed",
    )
}

} // verus!
