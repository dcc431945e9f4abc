use vstd::prelude::*;

verus! {

/// The separator between the user id and the task id of a composite id.
pub open spec fn sep() -> char {
    '_'
}

/// The length of the leading token of `s`: the characters before the
/// first separator, or all of `s` when it holds none.
pub open spec fn token_len(s: Seq<char>) -> nat
    decreases s.len(),
{
    if s.len() == 0 {
        0
    } else if s[0] == sep() {
        0
    } else {
        1 + token_len(s.drop_first())
    }
}

/// `s` holds no separator.
pub open spec fn no_sep(s: Seq<char>) -> bool {
    forall|k: int| 0 <= k < s.len() ==> s[k] != sep()
}

/// The composite id of a user's task: `"{user}_{task}"`.
pub open spec fn composite_id(user: Seq<char>, task: Seq<char>) -> Seq<char> {
    user + seq![sep()] + task
}

/// The two leading tokens of a composite id, split at separators: `None`
/// when the id holds no separator, so that fewer than two tokens come out.
/// Tokens after the second are not read.
pub open spec fn parse_task_id_spec(s: Seq<char>) -> Option<(Seq<char>, Seq<char>)> {
    let u = token_len(s) as int;
    if u >= s.len() {
        None
    } else {
        let rest = s.subrange(u + 1, s.len() as int);
        Some((s.subrange(0, u), rest.subrange(0, token_len(rest) as int)))
    }
}

/// The leading token ends at the first separator.
pub proof fn lemma_token_len(s: Seq<char>, i: int)
    requires
        0 <= i <= s.len(),
        forall|k: int| 0 <= k < i ==> s[k] != sep(),
        i == s.len() || s[i] == sep(),
    ensures
        token_len(s) == i,
    decreases i,
{
    if i > 0 {
        lemma_token_len(s.drop_first(), i - 1);
    }
}

/// The user and task ids of a composite id.
#[derive(Debug, Clone)]
pub struct TaskKey {
    pub user_uuid: String,
    pub task_uuid: String,
}

/// Index of the first separator at or after `from`, or the length.
fn find_sep(id: &str, from: usize, n: usize) -> (r: usize)
    requires
        n == id@.len(),
        from <= n,
    ensures
        from <= r <= n,
        forall|k: int| from <= k < r ==> id@[k] != sep(),
        r == n || id@[r as int] == sep(),
{
    let mut i: usize = from;
    while i < n
        invariant
            n == id@.len(),
            from <= i <= n,
            forall|k: int| from <= k < i ==> id@[k] != sep(),
        decreases n - i,
    {
        if id.get_char(i) == '_' {
            return i;
        }
        i = i + 1;
    }
    i
}

/// Splits a composite id into its user and task ids. An id without a
/// separator is malformed and gives `None`.
pub fn parse_task_id(id: &str) -> (r: Option<TaskKey>)
    ensures
        r is None <==> parse_task_id_spec(id@) is None,
        r is Some ==> parse_task_id_spec(id@) == Some((r->0.user_uuid@, r->0.task_uuid@)),
{
    let n = id.unicode_len();
    let u = find_sep(id, 0, n);
    proof {
        lemma_token_len(id@, u as int);
    }
    if u == n {
        return None;
    }
    let t = find_sep(id, u + 1, n);
    proof {
        let rest = id@.subrange(u + 1, n as int);
        lemma_token_len(rest, t - (u + 1));
    }
    let user_uuid = String::from_str(id.substring_char(0, u));
    let task_uuid = String::from_str(id.substring_char(u + 1, t));
    proof {
        let rest = id@.subrange(u + 1, n as int);
        assert(rest.subrange(0, t - (u + 1)) =~= id@.subrange(u + 1, t as int));
    }
    Some(TaskKey { user_uuid, task_uuid })
}

/// A composite id made of two separator-free ids parses back into them.
pub proof fn lemma_parse_composite_id(user: Seq<char>, task: Seq<char>)
    requires
        no_sep(user),
        no_sep(task),
    ensures
        parse_task_id_spec(composite_id(user, task)) == Some((user, task)),
{
    let s = composite_id(user, task);
    lemma_token_len(s, user.len() as int);
    let rest = s.subrange(user.len() as int + 1, s.len() as int);
    assert(rest =~= task);
    lemma_token_len(task, task.len() as int);
    assert(s.subrange(0, user.len() as int) =~= user);
    assert(task.subrange(0, task.len() as int) =~= task);
}

/// An id without a separator holds a single token and is refused.
pub proof fn lemma_single_token_refused(id: Seq<char>)
    requires
        no_sep(id),
    ensures
        parse_task_id_spec(id) is None,
{
    lemma_token_len(id, id.len() as int);
}

} // verus!
