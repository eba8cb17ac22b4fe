use vstd::prelude::*;

verus! {

pub open spec fn is_digit(b: u8) -> bool {
    48 <= b <= 57
}

/// The value of a run of decimal digits, most significant first.
pub open spec fn digits_value(s: Seq<u8>) -> int
    decreases s.len(),
{
    if s.len() == 0 {
        0
    } else {
        digits_value(s.drop_last()) * 10 + (s.last() - 48)
    }
}

/// The digits of a number, past one optional leading `+`.
pub open spec fn unsigned_part(s: Seq<u8>) -> Seq<u8> {
    if s.len() > 0 && s[0] == 43 {
        s.subrange(1, s.len() as int)
    } else {
        s
    }
}

/// The unsigned 64-bit integer that the text `s` denotes: one optional `+`,
/// then one or more decimal digits, whose value must fit in 64 bits.
pub open spec fn parsed_u64(s: Seq<u8>) -> Option<u64> {
    let d = unsigned_part(s);
    if d.len() > 0 && (forall|i: int| 0 <= i < d.len() ==> is_digit(d[i])) && digits_value(d)
        <= u64::MAX {
        Some(digits_value(d) as u64)
    } else {
        None
    }
}

/// A run of digits has a value of at least zero.
proof fn lemma_digits_nonneg(s: Seq<u8>)
    requires
        forall|i: int| 0 <= i < s.len() ==> is_digit(s[i]),
    ensures
        digits_value(s) >= 0,
    decreases s.len(),
{
    if s.len() > 0 {
        lemma_digits_nonneg(s.drop_last());
    }
}

/// Over digits, a longer prefix never has a smaller value.
proof fn lemma_digits_monotone(s: Seq<u8>, j: int, k: int)
    requires
        0 <= j <= k <= s.len(),
        forall|i: int| 0 <= i < s.len() ==> is_digit(s[i]),
    ensures
        digits_value(s.subrange(0, j)) <= digits_value(s.subrange(0, k)),
    decreases k - j,
{
    if j < k {
        lemma_digits_monotone(s, j, k - 1);
        let p = s.subrange(0, k - 1);
        assert(s.subrange(0, k).drop_last() =~= p);
        lemma_digits_nonneg(p);
    }
}

/// Whether every byte of `s[first..]` is a decimal digit.
fn digits_from(s: &[u8], first: usize) -> (r: bool)
    requires
        first <= s@.len(),
    ensures
        r == (forall|k: int| first <= k < s@.len() ==> is_digit(s@[k])),
{
    let n = s.len();
    let mut k = first;
    while k < n
        invariant
            first <= k <= n,
            n == s@.len(),
            forall|m: int| first <= m < k ==> is_digit(s@[m]),
        decreases n - k,
    {
        if s[k] < 48u8 || s[k] > 57u8 {
            return false;
        }
        k = k + 1;
    }
    true
}

/// Parses `s[start..]` as an unsigned 64-bit integer.
fn parse_from(s: &[u8], start: usize) -> (r: Option<u64>)
    requires
        start <= s@.len(),
    ensures
        r == parsed_u64(s@.subrange(start as int, s@.len() as int)),
{
    let ghost whole = s@.subrange(start as int, s@.len() as int);
    let n = s.len();
    let mut first = start;
    if first < n && s[first] == 43u8 {
        first = first + 1;
    }
    let ghost d = s@.subrange(first as int, n as int);
    assert(unsigned_part(whole) =~= d);
    if first == n {
        return None;
    }
    if !digits_from(s, first) {
        assert(exists|k: int| first <= k < n && !is_digit(s@[k]));
        assert(!(forall|m: int| 0 <= m < d.len() ==> is_digit(d[m]))) by {
            let k = choose|k: int| first <= k < n && !is_digit(s@[k]);
            assert(d[k - first] == s@[k]);
        }
        return None;
    }
    assert(forall|m: int| 0 <= m < d.len() ==> is_digit(d[m])) by {
        assert forall|m: int| 0 <= m < d.len() implies is_digit(d[m]) by {
            assert(d[m] == s@[m + first]);
        }
    }
    let mut value: u64 = 0;
    let mut i = first;
    while i < n
        invariant
            first <= i <= n,
            n == s@.len(),
            d == s@.subrange(first as int, n as int),
            unsigned_part(whole) == d,
            whole == s@.subrange(start as int, n as int),
            d.len() > 0,
            forall|m: int| 0 <= m < d.len() ==> is_digit(d[m]),
            value == digits_value(d.subrange(0, i - first)),
        decreases n - i,
    {
        let b = s[i];
        proof {
            assert(d.subrange(0, i + 1 - first).drop_last() =~= d.subrange(0, i - first));
            assert(d[i - first] == b);
        }
        let next = match value.checked_mul(10) {
            Some(t) => t.checked_add((b - 48u8) as u64),
            None => None,
        };
        match next {
            Some(v) => {
                value = v;
            },
            None => {
                proof {
                    lemma_digits_monotone(d, i + 1 - first, d.len() as int);
                    assert(d.subrange(0, d.len() as int) =~= d);
                }
                return None;
            },
        }
        i = i + 1;
    }
    assert(d.subrange(0, n - first) =~= d);
    Some(value)
}

/// Parses a task id: an optional `+` and decimal digits that fit in 64 bits.
pub fn parse_task_id(segment: &[u8]) -> (r: Option<u64>)
    ensures
        r == parsed_u64(segment@),
{
    let r = parse_from(segment, 0);
    assert(segment@.subrange(0, segment@.len() as int) =~= segment@);
    r
}

/// The request methods that the service tells apart.
#[derive(Clone, Copy, Debug, PartialEq, Eq, Structural)]
pub enum Method {
    Get,
    Post,
    Put,
    Delete,
    Other,
}

/// Where a request goes. A task id that did not parse is `None`.
#[derive(Clone, Copy, Debug, PartialEq, Eq, Structural)]
pub enum Route {
    Root,
    Health,
    CreateTask,
    ListTasks,
    GetTask(Option<u64>),
    UpdateTask(Option<u64>),
    DeleteTask(Option<u64>),
    NotFound,
}

/// `/`
pub open spec fn root_path() -> Seq<u8> {
    seq![47u8]
}

/// `/health`
pub open spec fn health_path() -> Seq<u8> {
    seq![47u8, 104u8, 101u8, 97u8, 108u8, 116u8, 104u8]
}

/// `/tasks`
pub open spec fn tasks_path() -> Seq<u8> {
    seq![47u8, 116u8, 97u8, 115u8, 107u8, 115u8]
}

/// `/tasks/`, the prefix of a path that names one task.
pub open spec fn task_prefix() -> Seq<u8> {
    tasks_path().push(47u8)
}

/// The dispatch table: fixed paths first, then `/tasks/<segment>` with a
/// segment that is not empty, for reading, replacing and removing one task.
pub open spec fn route_of(m: Method, p: Seq<u8>) -> Route {
    if m == Method::Get && p == root_path() {
        Route::Root
    } else if m == Method::Get && p == health_path() {
        Route::Health
    } else if m == Method::Post && p == tasks_path() {
        Route::CreateTask
    } else if m == Method::Get && p == tasks_path() {
        Route::ListTasks
    } else if p.len() > 7 && p.subrange(0, 7) == task_prefix() {
        let id = parsed_u64(p.subrange(7, p.len() as int));
        match m {
            Method::Get => Route::GetTask(id),
            Method::Put => Route::UpdateTask(id),
            Method::Delete => Route::DeleteTask(id),
            _ => Route::NotFound,
        }
    } else {
        Route::NotFound
    }
}

/// Whether `p` begins with `lit`.
fn has_prefix(p: &[u8], lit: &[u8]) -> (r: bool)
    ensures
        r == (lit@.len() <= p@.len() && p@.subrange(0, lit@.len() as int) == lit@),
{
    if lit.len() > p.len() {
        return false;
    }
    let mut i: usize = 0;
    while i < lit.len()
        invariant
            lit@.len() <= p@.len(),
            0 <= i <= lit@.len(),
            forall|k: int| 0 <= k < i ==> p@[k] == lit@[k],
        decreases lit@.len() - i,
    {
        if p[i] != lit[i] {
            assert(p@.subrange(0, lit@.len() as int)[i as int] != lit@[i as int]);
            return false;
        }
        i = i + 1;
    }
    assert(p@.subrange(0, lit@.len() as int) =~= lit@);
    true
}

/// Whether `p` is exactly `lit`.
fn is_path(p: &[u8], lit: &[u8]) -> (r: bool)
    ensures
        r == (p@ == lit@),
{
    let r = p.len() == lit.len() && has_prefix(p, lit);
    proof {
        if p@.len() == lit@.len() {
            assert(p@.subrange(0, lit@.len() as int) =~= p@);
        }
    }
    r
}

/// Picks the route of a request from its method and the bytes of its path.
pub fn route(method: Method, path: &[u8]) -> (r: Route)
    ensures
        r == route_of(method, path@),
{
    let root: Vec<u8> = vec![47u8];
    let health: Vec<u8> = vec![47u8, 104u8, 101u8, 97u8, 108u8, 116u8, 104u8];
    let tasks: Vec<u8> = vec![47u8, 116u8, 97u8, 115u8, 107u8, 115u8];
    let prefix: Vec<u8> = vec![47u8, 116u8, 97u8, 115u8, 107u8, 115u8, 47u8];
    assert(root@ =~= root_path());
    assert(health@ =~= health_path());
    assert(tasks@ =~= tasks_path());
    assert(prefix@ =~= task_prefix());
    let is_root = is_path(path, root.as_slice());
    let is_health = is_path(path, health.as_slice());
    let is_tasks = is_path(path, tasks.as_slice());
    if method == Method::Get && is_root {
        Route::Root
    } else if method == Method::Get && is_health {
        Route::Health
    } else if method == Method::Post && is_tasks {
        Route::CreateTask
    } else if method == Method::Get && is_tasks {
        Route::ListTasks
    } else if path.len() > 7 && has_prefix(path, prefix.as_slice()) {
        let id = parse_from(path, 7);
        match method {
            Method::Get => Route::GetTask(id),
            Method::Put => Route::UpdateTask(id),
            Method::Delete => Route::DeleteTask(id),
            _ => Route::NotFound,
        }
    } else {
        Route::NotFound
    }
}

} // verus!
