//! Resolving the input path. The input `owner/repo/path/to/file` is split on
//! `/` into owner, repository and remainder; together with the branch these
//! form the remote locator `owner/repo/branch/path/to/file`, and the text
//! after the remainder's last `/` is the local file name. No I/O happens
//! here.

use vstd::prelude::*;
use vstd::string::StrSliceExecFns;
use vstd::string::StringExecFns;

use crate::errors::PickError;

verus! {

/// A single `/`, as contracts state splitting and joining.
pub open spec fn slash() -> Seq<char> {
    seq!['/']
}

/// Index of the first `/` in `s` at or after position `i`, or -1 if there is
/// none.
pub open spec fn find_slash_from(s: Seq<char>, i: int) -> int
    decreases s.len() - i,
{
    if i < 0 || i >= s.len() {
        -1
    } else if s[i] == '/' {
        i
    } else {
        find_slash_from(s, i + 1)
    }
}

/// Index of the first `/` in `s`, or -1 if there is none.
pub open spec fn find_slash(s: Seq<char>) -> int {
    find_slash_from(s, 0)
}

/// Index of the last `/` in `s`, or -1 if there is none.
pub open spec fn find_last_slash(s: Seq<char>) -> int
    decreases s.len(),
{
    if s.len() == 0 {
        -1
    } else if s[s.len() - 1] == '/' {
        s.len() - 1
    } else {
        find_last_slash(s.drop_last())
    }
}

/// What `find_slash_from` returns: -1 exactly when no `/` follows, else the
/// position of the first `/` at or after `i`.
pub proof fn lemma_find_slash_props(s: Seq<char>, i: int)
    requires
        0 <= i <= s.len(),
    ensures
        find_slash_from(s, i) == -1 ==> (forall|j: int| i <= j < s.len() ==> s[j] != '/'),
        find_slash_from(s, i) != -1 ==> i <= find_slash_from(s, i) < s.len(),
        find_slash_from(s, i) != -1 ==> s[find_slash_from(s, i)] == '/',
        find_slash_from(s, i) != -1 ==> (forall|j: int| i <= j < find_slash_from(s, i) ==> s[j]
            != '/'),
    decreases s.len() - i,
{
    if i == s.len() {
    } else if s[i] == '/' {
    } else {
        lemma_find_slash_props(s, i + 1);
    }
}

/// A `/` at `k` with none between `i` and `k` is the first one from `i`.
pub proof fn lemma_find_slash_at(s: Seq<char>, i: int, k: int)
    requires
        0 <= i <= k < s.len(),
        s[k] == '/',
        forall|j: int| i <= j < k ==> s[j] != '/',
    ensures
        find_slash_from(s, i) == k,
    decreases k - i,
{
    if i < k {
        lemma_find_slash_at(s, i + 1, k);
    }
}

/// What `find_last_slash` returns: -1 exactly when `s` has no `/`, else the
/// position of the last one.
pub proof fn lemma_find_last_slash_props(s: Seq<char>)
    ensures
        find_last_slash(s) == -1 ==> (forall|j: int| 0 <= j < s.len() ==> s[j] != '/'),
        find_last_slash(s) != -1 ==> 0 <= find_last_slash(s) < s.len(),
        find_last_slash(s) != -1 ==> s[find_last_slash(s)] == '/',
        find_last_slash(s) != -1 ==> (forall|j: int|
            find_last_slash(s) < j < s.len() ==> s[j] != '/'),
    decreases s.len(),
{
    if s.len() == 0 {
    } else if s[s.len() - 1] == '/' {
    } else {
        lemma_find_last_slash_props(s.drop_last());
        assert(forall|j: int| 0 <= j < s.len() - 1 ==> s.drop_last()[j] == s[j]);
    }
}

/// A `/` at `k` with none after it is the last one.
pub proof fn lemma_find_last_slash_at(s: Seq<char>, k: int)
    requires
        0 <= k < s.len(),
        s[k] == '/',
        forall|j: int| k < j < s.len() ==> s[j] != '/',
    ensures
        find_last_slash(s) == k,
    decreases s.len(),
{
    if k < s.len() - 1 {
        assert(s.drop_last()[k] == s[k]);
        assert(forall|j: int| k < j < s.drop_last().len() ==> s.drop_last()[j] == s[j]);
        lemma_find_last_slash_at(s.drop_last(), k);
    }
}

/// A sequence without any `/` has no last one.
pub proof fn lemma_find_last_slash_none(s: Seq<char>)
    requires
        forall|j: int| 0 <= j < s.len() ==> s[j] != '/',
    ensures
        find_last_slash(s) == -1,
    decreases s.len(),
{
    if s.len() > 0 {
        assert(forall|j: int| 0 <= j < s.drop_last().len() ==> s.drop_last()[j] == s[j]);
        lemma_find_last_slash_none(s.drop_last());
    }
}

/// Whether the input path splits into three non-empty parts: an owner before
/// the first `/`, a repository before the next `/`, and a non-empty
/// remainder after that.
pub open spec fn resolve_ok(path: Seq<char>) -> bool {
    let i = find_slash(path);
    i >= 1 && {
        let rest = path.subrange(i + 1, path.len() as int);
        let j = find_slash(rest);
        j >= 1 && j + 1 < rest.len()
    }
}

/// The owner part: the text before the first `/`.
pub open spec fn owner_of(path: Seq<char>) -> Seq<char> {
    path.subrange(0, find_slash(path))
}

/// The text after the first `/`.
pub open spec fn rest_of(path: Seq<char>) -> Seq<char> {
    path.subrange(find_slash(path) + 1, path.len() as int)
}

/// The repository part: the text between the first and the second `/`.
pub open spec fn repo_of(path: Seq<char>) -> Seq<char> {
    rest_of(path).subrange(0, find_slash(rest_of(path)))
}

/// The remainder: the text after the second `/`, which may itself contain
/// further `/` separators.
pub open spec fn remainder_of(path: Seq<char>) -> Seq<char> {
    rest_of(path).subrange(find_slash(rest_of(path)) + 1, rest_of(path).len() as int)
}

/// The local file name derived from a remainder: the text after its last
/// `/`, or the whole remainder if it has none.
pub open spec fn file_name_of(remainder: Seq<char>) -> Seq<char> {
    remainder.subrange(find_last_slash(remainder) + 1, remainder.len() as int)
}

/// The remote locator built from its four parts.
pub open spec fn locator_of(
    owner: Seq<char>,
    repo: Seq<char>,
    branch: Seq<char>,
    remainder: Seq<char>,
) -> Seq<char> {
    owner + slash() + repo + slash() + branch + slash() + remainder
}

/// What resolving the input yields: the remote locator and the local file
/// name. Derived once per run and owned by the orchestration from then on.
pub struct ResolvedTarget {
    pub remote_locator: String,
    pub local_file_name: String,
}

/// Position of the first `/` of `s`, if any.
fn find_slash_index(s: &str) -> (r: Option<usize>)
    ensures
        match r {
            Some(i) => find_slash(s@) == i as int,
            None => find_slash(s@) == -1,
        },
{
    let n = s.unicode_len();
    let mut i: usize = 0;
    while i < n
        invariant
            s@.len() == n as nat,
            i <= n,
            find_slash_from(s@, 0) == find_slash_from(s@, i as int),
        decreases n - i,
    {
        let c = s.get_char(i);
        if c == '/' {
            assert(find_slash_from(s@, i as int) == i as int);
            return Some(i);
        }
        assert(find_slash_from(s@, i as int) == find_slash_from(s@, i as int + 1));
        i = i + 1;
    }
    assert(find_slash_from(s@, i as int) == -1);
    None
}

/// Position of the last `/` of `s`, if any.
fn find_last_slash_index(s: &str) -> (r: Option<usize>)
    ensures
        match r {
            Some(k) => find_last_slash(s@) == k as int,
            None => find_last_slash(s@) == -1,
        },
{
    let n = s.unicode_len();
    let mut i: usize = n;
    while i > 0
        invariant
            s@.len() == n as nat,
            i <= n,
            forall|j: int| i <= j < n ==> s@[j] != '/',
        decreases i,
    {
        i = i - 1;
        let c = s.get_char(i);
        if c == '/' {
            proof {
                lemma_find_last_slash_at(s@, i as int);
            }
            return Some(i);
        }
    }
    proof {
        lemma_find_last_slash_none(s@);
    }
    None
}

/// Split the input path on `/` into owner, repository and remainder, and
/// combine them with the branch into the remote locator; the local file name
/// is the remainder's final segment. Succeeds exactly when owner, repository
/// and remainder are all non-empty; no network or file-system access occurs.
pub fn parse_path(path: &str, branch: &str) -> (r: Result<ResolvedTarget, PickError>)
    ensures
        r is Ok <==> resolve_ok(path@),
        r matches Ok(target) ==> target.remote_locator@ == locator_of(
            owner_of(path@),
            repo_of(path@),
            branch@,
            remainder_of(path@),
        ),
        r matches Ok(target) ==> target.local_file_name@ == file_name_of(remainder_of(path@)),
        r matches Err(e) ==> e is InvalidPath,
{
    let n = path.unicode_len();
    let i = match find_slash_index(path) {
        Some(i) => i,
        None => {
            return Err(PickError::InvalidPath);
        },
    };
    proof {
        lemma_find_slash_props(path@, 0);
    }
    if i == 0 {
        return Err(PickError::InvalidPath);
    }
    let rest = path.substring_char(i + 1, n);
    let rest_len = n - (i + 1);
    let j = match find_slash_index(rest) {
        Some(j) => j,
        None => {
            return Err(PickError::InvalidPath);
        },
    };
    proof {
        lemma_find_slash_props(rest@, 0);
    }
    if j == 0 {
        return Err(PickError::InvalidPath);
    }
    if j + 1 >= rest_len {
        return Err(PickError::InvalidPath);
    }
    let owner = path.substring_char(0, i);
    let repo = rest.substring_char(0, j);
    let remainder = rest.substring_char(j + 1, rest_len);
    let rem_len = rest_len - (j + 1);
    let file_name = match find_last_slash_index(remainder) {
        Some(k) => {
            proof {
                lemma_find_last_slash_props(remainder@);
            }
            remainder.substring_char(k + 1, rem_len)
        },
        None => {
            proof {
                assert(remainder@.subrange(0, rem_len as int) =~= remainder@);
            }
            remainder
        },
    };
    let mut locator = String::new();
    locator.append(owner);
    locator.append("/");
    locator.append(repo);
    locator.append("/");
    locator.append(branch);
    locator.append("/");
    locator.append(remainder);
    proof {
        reveal_strlit("/");
        assert("/"@ =~= slash());
        assert(locator@ =~= locator_of(owner_of(path@), repo_of(path@), branch@, remainder_of(
            path@,
        )));
    }
    Ok(ResolvedTarget { remote_locator: locator, local_file_name: String::from_str(file_name) })
}

/// How many `/` the sequence contains.
pub open spec fn slash_count(s: Seq<char>) -> nat
    decreases s.len(),
{
    if s.len() == 0 {
        0
    } else {
        (if s[0] == '/' {
            1nat
        } else {
            0nat
        }) + slash_count(s.drop_first())
    }
}

proof fn lemma_slash_count_one(s: Seq<char>, a: int)
    requires
        0 <= a < s.len(),
        s[a] == '/',
    ensures
        slash_count(s) >= 1,
    decreases s.len(),
{
    if a > 0 {
        assert(s.drop_first()[a - 1] == s[a]);
        lemma_slash_count_one(s.drop_first(), a - 1);
    }
}

proof fn lemma_slash_count_two(s: Seq<char>, a: int, b: int)
    requires
        0 <= a < b < s.len(),
        s[a] == '/',
        s[b] == '/',
    ensures
        slash_count(s) >= 2,
    decreases s.len(),
{
    if a == 0 {
        assert(s.drop_first()[b - 1] == s[b]);
        lemma_slash_count_one(s.drop_first(), b - 1);
    } else {
        assert(s.drop_first()[a - 1] == s[a]);
        assert(s.drop_first()[b - 1] == s[b]);
        lemma_slash_count_two(s.drop_first(), a - 1, b - 1);
    }
}

/// An input with fewer than two `/` separators cannot be resolved: the
/// resolver rejects it as an invalid path.
pub proof fn lemma_few_separators_rejected(path: Seq<char>)
    requires
        slash_count(path) < 2,
    ensures
        !resolve_ok(path),
{
    if resolve_ok(path) {
        let i = find_slash(path);
        lemma_find_slash_props(path, 0);
        let rest = rest_of(path);
        let j = find_slash(rest);
        lemma_find_slash_props(rest, 0);
        assert(path[i + 1 + j] == rest[j]);
        lemma_slash_count_two(path, i, i + 1 + j);
        assert(false);
    }
}

/// A well-formed input resolves: gluing a slash-free owner, a slash-free
/// repository and a non-empty remainder with `/` yields a path the resolver
/// accepts and splits back into exactly those parts, so for any branch its
/// remote locator is the owner, the repository, the branch and the
/// remainder, glued with `/`.
pub proof fn lemma_resolve_well_formed(
    owner: Seq<char>,
    repo: Seq<char>,
    branch: Seq<char>,
    remainder: Seq<char>,
)
    requires
        owner.len() >= 1,
        forall|j: int| 0 <= j < owner.len() ==> owner[j] != '/',
        repo.len() >= 1,
        forall|j: int| 0 <= j < repo.len() ==> repo[j] != '/',
        remainder.len() >= 1,
    ensures
        resolve_ok(owner + slash() + repo + slash() + remainder),
        owner_of(owner + slash() + repo + slash() + remainder) == owner,
        repo_of(owner + slash() + repo + slash() + remainder) == repo,
        remainder_of(owner + slash() + repo + slash() + remainder) == remainder,
        locator_of(
            owner_of(owner + slash() + repo + slash() + remainder),
            repo_of(owner + slash() + repo + slash() + remainder),
            branch,
            remainder_of(owner + slash() + repo + slash() + remainder),
        ) == owner + slash() + repo + slash() + branch + slash() + remainder,
{
    let path = owner + slash() + repo + slash() + remainder;
    let o = owner.len() as int;
    assert(path[o] == '/');
    assert(forall|j: int| 0 <= j < o ==> path[j] == owner[j]);
    lemma_find_slash_at(path, 0, o);
    let rest = path.subrange(o + 1, path.len() as int);
    assert(rest =~= repo + slash() + remainder);
    assert(rest_of(path) == rest);
    let p = repo.len() as int;
    assert(rest[p] == '/');
    assert(forall|j: int| 0 <= j < p ==> rest[j] == repo[j]);
    lemma_find_slash_at(rest, 0, p);
    assert(owner_of(path) =~= owner);
    assert(repo_of(path) =~= repo);
    assert(remainder_of(path) =~= remainder);
}

/// The file name is the text after the remainder's last `/`: if everything
/// after some `/` is slash-free, that tail is the file name.
pub proof fn lemma_file_name_after_last_slash(prefix: Seq<char>, tail: Seq<char>)
    requires
        forall|j: int| 0 <= j < tail.len() ==> tail[j] != '/',
    ensures
        file_name_of(prefix + slash() + tail) == tail,
{
    let s = prefix + slash() + tail;
    let k = prefix.len() as int;
    assert(s[k] == '/');
    assert(forall|j: int| k < j < s.len() ==> s[j] == tail[j - k - 1]);
    lemma_find_last_slash_at(s, k);
    assert(file_name_of(s) =~= tail);
}

/// A remainder of a single segment, with no `/` of its own, is itself the
/// file name.
pub proof fn lemma_file_name_single_segment(remainder: Seq<char>)
    requires
        forall|j: int| 0 <= j < remainder.len() ==> remainder[j] != '/',
    ensures
        file_name_of(remainder) == remainder,
{
    lemma_find_last_slash_none(remainder);
    assert(file_name_of(remainder) =~= remainder);
}

/// Round trip: the three parts the resolver finds, glued back with `/`,
/// reproduce the input path exactly; with the branch spliced between
/// repository and remainder they form the remote locator, the exact string
/// the network layer is handed.
pub proof fn lemma_resolve_reconstructs(path: Seq<char>)
    requires
        resolve_ok(path),
    ensures
        owner_of(path) + slash() + repo_of(path) + slash() + remainder_of(path) == path,
{
    lemma_find_slash_props(path, 0);
    let i = find_slash(path);
    let rest = rest_of(path);
    lemma_find_slash_props(rest, 0);
    let j = find_slash(rest);
    assert(repo_of(path) + slash() + remainder_of(path) =~= rest);
    assert(owner_of(path) + slash() + rest =~= path);
    assert(owner_of(path) + slash() + repo_of(path) + slash() + remainder_of(path) =~= path);
}

} // verus!
