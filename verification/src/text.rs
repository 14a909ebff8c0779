//! Small verified helpers over strings, seen as sequences of characters.
use vstd::prelude::*;

verus! {

/// `s` without its leading `'$'` characters.
pub open spec fn drop_leading_dollars(s: Seq<char>) -> Seq<char>
    decreases s.len(),
{
    if s.len() > 0 && s[0] == '$' {
        drop_leading_dollars(s.skip(1))
    } else {
        s
    }
}

/// `s` without its trailing `'$'` characters.
pub open spec fn drop_trailing_dollars(s: Seq<char>) -> Seq<char>
    decreases s.len(),
{
    if s.len() > 0 && s[s.len() - 1] == '$' {
        drop_trailing_dollars(s.take(s.len() - 1))
    } else {
        s
    }
}

/// `s` without leading and trailing `'$'` characters, as `str::trim_matches('$')`
/// computes it.
pub open spec fn trim_dollars_spec(s: Seq<char>) -> Seq<char> {
    drop_trailing_dollars(drop_leading_dollars(s))
}

proof fn lemma_drop_leading_skip(s: Seq<char>, i: int)
    requires
        0 <= i <= s.len(),
        forall|k: int| 0 <= k < i ==> s[k] == '$',
        i == s.len() || s[i] != '$',
    ensures
        drop_leading_dollars(s) == s.skip(i),
    decreases i,
{
    if i == 0 {
        assert(s.skip(0) =~= s);
    } else {
        assert(s[0] == '$');
        lemma_drop_leading_skip(s.skip(1), i - 1);
        assert(s.skip(1).skip(i - 1) =~= s.skip(i));
    }
}

proof fn lemma_drop_trailing_take(s: Seq<char>, j: int)
    requires
        0 <= j <= s.len(),
        forall|k: int| j <= k < s.len() ==> s[k] == '$',
        j == 0 || s[j - 1] != '$',
    ensures
        drop_trailing_dollars(s) == s.take(j),
    decreases s.len() - j,
{
    if j == s.len() {
        assert(s.take(j) =~= s);
    } else {
        assert(s[s.len() - 1] == '$');
        lemma_drop_trailing_take(s.take(s.len() - 1), j);
        assert(s.take(s.len() - 1).take(j) =~= s.take(j));
    }
}

/// `s` with its leading and trailing `'$'` characters removed.
pub fn trim_dollars(s: &str) -> (r: String)
    ensures
        r@ == trim_dollars_spec(s@),
{
    let n: usize = s.unicode_len();
    let mut i: usize = 0;
    while i < n && s.get_char(i) == '$'
        invariant
            0 <= i <= n,
            n == s@.len(),
            forall|k: int| 0 <= k < i ==> s@[k] == '$',
        decreases n - i,
    {
        i = i + 1;
    }
    proof {
        lemma_drop_leading_skip(s@, i as int);
    }
    let rest = s.substring_char(i, n);
    // rest@ == s@.skip(i) == drop_leading_dollars(s@)
    let m: usize = n - i;
    let mut j: usize = m;
    while j > 0 && rest.get_char(j - 1) == '$'
        invariant
            0 <= j <= m,
            m == rest@.len(),
            rest@ == drop_leading_dollars(s@),
            forall|k: int| j <= k < m ==> rest@[k] == '$',
        decreases j,
    {
        j = j - 1;
    }
    proof {
        lemma_drop_trailing_take(rest@, j as int);
    }
    let out = rest.substring_char(0, j);
    assert(out@ =~= rest@.take(j as int));
    out.to_owned()
}

proof fn lemma_drop_leading_concat(s: Seq<char>, t: Seq<char>)
    ensures
        drop_leading_dollars(s + t) == if drop_leading_dollars(s).len() > 0 {
            drop_leading_dollars(s) + t
        } else {
            drop_leading_dollars(t)
        },
    decreases s.len(),
{
    if s.len() == 0 {
        assert(s + t =~= t);
    } else if s[0] == '$' {
        assert((s + t)[0] == '$');
        assert((s + t).skip(1) =~= s.skip(1) + t);
        lemma_drop_leading_concat(s.skip(1), t);
    } else {
        assert(drop_leading_dollars(s + t) == s + t);
    }
}

proof fn lemma_drop_trailing_append_dollar(x: Seq<char>)
    ensures
        drop_trailing_dollars(x + seq!['$']) == drop_trailing_dollars(x),
{
    let y = x + seq!['$'];
    assert(y[y.len() - 1] == '$');
    assert(y.take(y.len() - 1) =~= x);
}

/// Wrapping a text in one `'$'` on each side does not change what trimming
/// recovers.
pub proof fn lemma_trim_dollars_wrap(s: Seq<char>)
    ensures
        trim_dollars_spec(seq!['$'] + s + seq!['$']) == trim_dollars_spec(s),
{
    let w = seq!['$'] + s + seq!['$'];
    assert(w[0] == '$');
    assert(w.skip(1) =~= s + seq!['$']);
    lemma_drop_leading_concat(s, seq!['$']);
    if drop_leading_dollars(s).len() > 0 {
        lemma_drop_trailing_append_dollar(drop_leading_dollars(s));
    } else {
        assert(drop_leading_dollars(seq!['$']) == drop_leading_dollars(
            seq!['$'].skip(1),
        ));
        assert(seq!['$'].skip(1) =~= Seq::<char>::empty());
    }
}

proof fn lemma_drop_leading_first(s: Seq<char>)
    ensures
        drop_leading_dollars(s).len() > 0 ==> drop_leading_dollars(s)[0] != '$',
    decreases s.len(),
{
    if s.len() > 0 && s[0] == '$' {
        lemma_drop_leading_first(s.skip(1));
    }
}

proof fn lemma_drop_trailing_last(s: Seq<char>)
    ensures
        drop_trailing_dollars(s).len() > 0 ==> drop_trailing_dollars(s)[drop_trailing_dollars(
            s,
        ).len() - 1] != '$',
    decreases s.len(),
{
    if s.len() > 0 && s[s.len() - 1] == '$' {
        lemma_drop_trailing_last(s.take(s.len() - 1));
    }
}

proof fn lemma_drop_trailing_first(s: Seq<char>)
    ensures
        drop_trailing_dollars(s).len() > 0 ==> drop_trailing_dollars(s)[0] == s[0],
    decreases s.len(),
{
    if s.len() > 0 && s[s.len() - 1] == '$' {
        lemma_drop_trailing_first(s.take(s.len() - 1));
    }
}

/// A text with no leading or trailing `'$'` is unchanged by trimming.
pub proof fn lemma_trim_dollars_fixpoint(s: Seq<char>)
    requires
        s.len() == 0 || (s[0] != '$' && s[s.len() - 1] != '$'),
    ensures
        trim_dollars_spec(s) == s,
{
}

/// Trimming `'$'` delimiters is idempotent.
pub proof fn lemma_trim_dollars_idempotent(s: Seq<char>)
    ensures
        trim_dollars_spec(trim_dollars_spec(s)) == trim_dollars_spec(s),
{
    let t = trim_dollars_spec(s);
    if t.len() == 0 {
    } else {
        lemma_drop_leading_first(s);
        lemma_drop_trailing_first(drop_leading_dollars(s));
        lemma_drop_trailing_last(drop_leading_dollars(s));
        assert(drop_leading_dollars(s).len() > 0);
        assert(t[0] != '$');
        assert(t[t.len() - 1] != '$');
        lemma_trim_dollars_fixpoint(t);
    }
}

/// `n` copies of the character `c`.
pub open spec fn repeat_char_spec(c: char, n: nat) -> Seq<char>
    decreases n,
{
    if n == 0 {
        Seq::empty()
    } else {
        repeat_char_spec(c, (n - 1) as nat) + seq![c]
    }
}

/// A string of `n` copies of `unit`, where `unit` renders one character.
pub fn repeat_str(unit: &str, n: usize) -> (r: String)
    requires
        unit@.len() == 1,
    ensures
        r@ == repeat_char_spec(unit@[0], n as nat),
{
    let mut out = String::new();
    let mut i: usize = 0;
    while i < n
        invariant
            0 <= i <= n,
            unit@.len() == 1,
            out@ == repeat_char_spec(unit@[0], i as nat),
        decreases n - i,
    {
        out.append(unit);
        i = i + 1;
    }
    out
}

/// The character for a single decimal digit.
pub open spec fn digit_char(d: int) -> char {
    if d == 0 {
        '0'
    } else if d == 1 {
        '1'
    } else if d == 2 {
        '2'
    } else if d == 3 {
        '3'
    } else if d == 4 {
        '4'
    } else if d == 5 {
        '5'
    } else if d == 6 {
        '6'
    } else if d == 7 {
        '7'
    } else if d == 8 {
        '8'
    } else {
        '9'
    }
}

/// The decimal digits of `n`, most significant first.
pub open spec fn dec_digits(n: nat) -> Seq<char>
    decreases n,
{
    if n < 10 {
        seq![digit_char(n as int)]
    } else {
        dec_digits(n / 10) + seq![digit_char((n % 10) as int)]
    }
}

fn digit_str(d: u64) -> (r: &'static str)
    requires
        d < 10,
    ensures
        r@ =~= seq![digit_char(d as int)],
{
    proof {
        reveal_strlit("0");
        reveal_strlit("1");
        reveal_strlit("2");
        reveal_strlit("3");
        reveal_strlit("4");
        reveal_strlit("5");
        reveal_strlit("6");
        reveal_strlit("7");
        reveal_strlit("8");
        reveal_strlit("9");
    }
    if d == 0 {
        "0"
    } else if d == 1 {
        "1"
    } else if d == 2 {
        "2"
    } else if d == 3 {
        "3"
    } else if d == 4 {
        "4"
    } else if d == 5 {
        "5"
    } else if d == 6 {
        "6"
    } else if d == 7 {
        "7"
    } else if d == 8 {
        "8"
    } else {
        "9"
    }
}

/// `n` written in decimal.
pub fn u64_to_string(n: u64) -> (r: String)
    ensures
        r@ == dec_digits(n as nat),
    decreases n,
{
    if n < 10 {
        String::from_str(digit_str(n))
    } else {
        let rest = u64_to_string(n / 10);
        rest.concat(digit_str(n % 10))
    }
}

/// `n` written in decimal.
pub fn usize_to_string(n: usize) -> (r: String)
    ensures
        r@ == dec_digits(n as nat),
{
    u64_to_string(n as u64)
}

/// A value in thousandths written as a signed decimal with three fractional
/// digits: `1500` renders as `1.500`, `-100` as `-0.100`.
pub open spec fn thousandths_spec(v: int) -> Seq<char> {
    let m = if v < 0 {
        -v
    } else {
        v
    };
    (if v < 0 {
        seq!['-']
    } else {
        Seq::empty()
    }) + dec_digits((m / 1000) as nat) + seq!['.'] + seq![
        digit_char(m / 100 % 10),
        digit_char(m / 10 % 10),
        digit_char(m % 10),
    ]
}

/// Writes a value in thousandths as a signed decimal with three fractional
/// digits.
pub fn thousandths_to_string(v: i32) -> (r: String)
    ensures
        r@ == thousandths_spec(v as int),
{
    let m: i64 = if v < 0 {
        -(v as i64)
    } else {
        v as i64
    };
    let mut out: String = if v < 0 {
        String::from_str("-")
    } else {
        String::new()
    };
    proof {
        reveal_strlit("-");
        if v < 0 {
            assert(out@ =~= seq!['-']);
        }
    }
    let int_part = u64_to_string((m / 1000) as u64);
    out.append(int_part.as_str());
    out.append(".");
    proof {
        reveal_strlit(".");
    }
    out.append(digit_str((m / 100 % 10) as u64));
    out.append(digit_str((m / 10 % 10) as u64));
    out.append(digit_str((m % 10) as u64));
    proof {
        assert(out@ =~= thousandths_spec(v as int));
    }
    out
}

/// Whether `s` begins with `prefix`.
pub open spec fn starts_with_spec(s: Seq<char>, prefix: Seq<char>) -> bool {
    s.len() >= prefix.len() && s.take(prefix.len() as int) == prefix
}

/// Whether `s` begins with `prefix`.
pub fn str_starts_with(s: &str, prefix: &str) -> (b: bool)
    ensures
        b == starts_with_spec(s@, prefix@),
{
    let n: usize = s.unicode_len();
    let m: usize = prefix.unicode_len();
    if n < m {
        assert(!starts_with_spec(s@, prefix@));
        return false;
    }
    let mut i: usize = 0;
    while i < m
        invariant
            0 <= i <= m,
            m <= n,
            n == s@.len(),
            m == prefix@.len(),
            forall|k: int| 0 <= k < i ==> s@[k] == prefix@[k],
        decreases m - i,
    {
        if s.get_char(i) != prefix.get_char(i) {
            assert(s@.take(m as int)[i as int] != prefix@[i as int]);
            return false;
        }
        i = i + 1;
    }
    assert(s@.take(m as int) =~= prefix@);
    true
}

/// Whether the two strings hold the same characters.
pub fn str_eq(a: &str, b: &str) -> (r: bool)
    ensures
        r == (a@ == b@),
{
    let n: usize = a.unicode_len();
    let m: usize = b.unicode_len();
    if n != m {
        return false;
    }
    let mut i: usize = 0;
    while i < n
        invariant
            0 <= i <= n,
            n == a@.len() == b@.len(),
            forall|k: int| 0 <= k < i ==> a@[k] == b@[k],
        decreases n - i,
    {
        if a.get_char(i) != b.get_char(i) {
            return false;
        }
        i = i + 1;
    }
    assert(a@ =~= b@);
    true
}

/// Whether `c` is an ASCII whitespace character.
pub open spec fn is_ws(c: char) -> bool {
    c == ' ' || c == '\n' || c == '\t' || c == '\r'
}

fn is_ws_exec(c: char) -> (r: bool)
    ensures
        r == is_ws(c),
{
    c == ' ' || c == '\n' || c == '\t' || c == '\r'
}

/// `s` without its leading whitespace.
pub open spec fn drop_leading_ws(s: Seq<char>) -> Seq<char>
    decreases s.len(),
{
    if s.len() > 0 && is_ws(s[0]) {
        drop_leading_ws(s.skip(1))
    } else {
        s
    }
}

/// `s` without its trailing whitespace.
pub open spec fn drop_trailing_ws(s: Seq<char>) -> Seq<char>
    decreases s.len(),
{
    if s.len() > 0 && is_ws(s[s.len() - 1]) {
        drop_trailing_ws(s.take(s.len() - 1))
    } else {
        s
    }
}

/// `s` without leading and trailing ASCII whitespace.
pub open spec fn trim_ws_spec(s: Seq<char>) -> Seq<char> {
    drop_trailing_ws(drop_leading_ws(s))
}

proof fn lemma_drop_leading_ws_skip(s: Seq<char>, i: int)
    requires
        0 <= i <= s.len(),
        forall|k: int| 0 <= k < i ==> is_ws(s[k]),
        i == s.len() || !is_ws(s[i]),
    ensures
        drop_leading_ws(s) == s.skip(i),
    decreases i,
{
    if i == 0 {
        assert(s.skip(0) =~= s);
    } else {
        lemma_drop_leading_ws_skip(s.skip(1), i - 1);
        assert(s.skip(1).skip(i - 1) =~= s.skip(i));
    }
}

proof fn lemma_drop_trailing_ws_take(s: Seq<char>, j: int)
    requires
        0 <= j <= s.len(),
        forall|k: int| j <= k < s.len() ==> is_ws(s[k]),
        j == 0 || !is_ws(s[j - 1]),
    ensures
        drop_trailing_ws(s) == s.take(j),
    decreases s.len() - j,
{
    if j == s.len() {
        assert(s.take(j) =~= s);
    } else {
        lemma_drop_trailing_ws_take(s.take(s.len() - 1), j);
        assert(s.take(s.len() - 1).take(j) =~= s.take(j));
    }
}

/// `s` with its leading and trailing ASCII whitespace removed.
pub fn trim_ws(s: &str) -> (r: String)
    ensures
        r@ == trim_ws_spec(s@),
{
    let n: usize = s.unicode_len();
    let mut i: usize = 0;
    while i < n && is_ws_exec(s.get_char(i))
        invariant
            0 <= i <= n,
            n == s@.len(),
            forall|k: int| 0 <= k < i ==> is_ws(s@[k]),
        decreases n - i,
    {
        i = i + 1;
    }
    proof {
        lemma_drop_leading_ws_skip(s@, i as int);
    }
    let rest = s.substring_char(i, n);
    let m: usize = n - i;
    let mut j: usize = m;
    while j > 0 && is_ws_exec(rest.get_char(j - 1))
        invariant
            0 <= j <= m,
            m == rest@.len(),
            rest@ == drop_leading_ws(s@),
            forall|k: int| j <= k < m ==> is_ws(rest@[k]),
        decreases j,
    {
        j = j - 1;
    }
    proof {
        lemma_drop_trailing_ws_take(rest@, j as int);
    }
    let out = rest.substring_char(0, j);
    assert(out@ =~= rest@.take(j as int));
    out.to_owned()
}

/// The index of the first blank line (`"\n\n"`) in `s`, or `-1` if none.
pub open spec fn first_break(s: Seq<char>) -> int
    decreases s.len(),
{
    if s.len() < 2 {
        -1
    } else if s[0] == '\n' && s[1] == '\n' {
        0
    } else {
        let r = first_break(s.skip(1));
        if r < 0 {
            -1
        } else {
            r + 1
        }
    }
}

pub proof fn lemma_first_break_bounds(s: Seq<char>)
    ensures
        first_break(s) >= 0 ==> {
            &&& first_break(s) + 2 <= s.len()
            &&& s[first_break(s)] == '\n'
            &&& s[first_break(s) + 1] == '\n'
        },
        first_break(s) >= -1,
    decreases s.len(),
{
    if s.len() < 2 {
    } else if s[0] == '\n' && s[1] == '\n' {
    } else {
        lemma_first_break_bounds(s.skip(1));
    }
}

/// No blank line starts before `first_break(s)`.
pub proof fn lemma_first_break_least(s: Seq<char>, k: int)
    requires
        0 <= k,
        k + 2 <= s.len(),
        s[k] == '\n',
        s[k + 1] == '\n',
    ensures
        0 <= first_break(s) <= k,
    decreases s.len(),
{
    if s.len() < 2 {
    } else if s[0] == '\n' && s[1] == '\n' {
    } else {
        assert(k >= 1);
        lemma_first_break_least(s.skip(1), k - 1);
        lemma_first_break_bounds(s.skip(1));
    }
}

/// `s` split on blank lines, leftmost first; without a blank line the whole
/// text is the single piece.
pub open spec fn split_paragraphs(s: Seq<char>) -> Seq<Seq<char>>
    decreases s.len(),
{
    let fb = first_break(s);
    if fb < 0 || fb + 2 > s.len() {
        seq![s]
    } else {
        seq![s.take(fb)] + split_paragraphs(s.skip(fb + 2))
    }
}

/// The index of the first blank line in `s` at or after nothing, scanning
/// from the front; `None` when there is none.
fn find_break(s: &str) -> (r: Option<usize>)
    ensures
        r matches Some(i) ==> i == first_break(s@) && i + 2 <= s@.len(),
        r is None ==> first_break(s@) < 0,
{
    let n: usize = s.unicode_len();
    if n < 2 {
        proof {
            lemma_first_break_bounds(s@);
            if first_break(s@) >= 0 {
                assert(first_break(s@) + 2 <= s@.len());
            }
        }
        return None;
    }
    let mut i: usize = 0;
    while i + 1 < n
        invariant
            0 <= i <= n - 1,
            n == s@.len(),
            n >= 2,
            forall|k: int| 0 <= k < i ==> !(#[trigger] s@[k] == '\n' && s@[k + 1] == '\n'),
        decreases n - i,
    {
        if s.get_char(i) == '\n' && s.get_char(i + 1) == '\n' {
            proof {
                lemma_first_break_least(s@, i as int);
                lemma_first_break_bounds(s@);
                let fb = first_break(s@);
                if fb < i {
                    assert(!(s@[fb] == '\n' && s@[fb + 1] == '\n'));
                }
            }
            return Some(i);
        }
        i = i + 1;
    }
    proof {
        lemma_first_break_bounds(s@);
        let fb = first_break(s@);
        if fb >= 0 {
            assert(!(s@[fb] == '\n' && s@[fb + 1] == '\n'));
        }
    }
    None
}

/// Splits `s` on blank lines.
pub fn split_paragraphs_exec(s: &str) -> (r: Vec<String>)
    ensures
        r.deep_view() == split_paragraphs(s@),
{
    let mut out: Vec<String> = Vec::new();
    let mut cur: String = s.to_owned();
    proof {
        assert(out.deep_view() + split_paragraphs(cur@) =~= split_paragraphs(s@));
    }
    loop
        invariant
            out.deep_view() + split_paragraphs(cur@) == split_paragraphs(s@),
        decreases cur@.len(),
    {
        match find_break(cur.as_str()) {
            Some(i) => {
                let n: usize = cur.as_str().unicode_len();
                let head = cur.as_str().substring_char(0, i);
                let tail = cur.as_str().substring_char(i + 2, n);
                proof {
                    assert(head@ =~= cur@.take(i as int));
                    assert(tail@ =~= cur@.skip(i as int + 2));
                    assert(split_paragraphs(cur@) == seq![cur@.take(i as int)]
                        + split_paragraphs(cur@.skip(i as int + 2)));
                }
                let ghost old_out = out.deep_view();
                out.push(head.to_owned());
                proof {
                    assert(out.deep_view() =~= old_out.push(cur@.take(i as int)));
                    assert(old_out.push(cur@.take(i as int)) =~= old_out + seq![
                        cur@.take(i as int),
                    ]);
                }
                cur = tail.to_owned();
            },
            None => {
                let ghost old_out = out.deep_view();
                let ghost curv = cur@;
                proof {
                    assert(split_paragraphs(curv) == seq![curv]);
                }
                out.push(cur);
                proof {
                    assert(out.deep_view() =~= old_out.push(curv));
                    assert(old_out.push(curv) =~= old_out + seq![curv]);
                }
                return out;
            },
        }
    }
}

/// `text` with `ins` inserted at character offset `pos`.
pub open spec fn splice_spec(text: Seq<char>, pos: int, ins: Seq<char>) -> Seq<char> {
    text.take(pos) + ins + text.skip(pos)
}

/// Inserts `ins` into `text` at character offset `pos`.
pub fn splice_string(text: &str, pos: usize, ins: &str) -> (r: String)
    requires
        pos <= text@.len(),
    ensures
        r@ == splice_spec(text@, pos as int, ins@),
{
    let n: usize = text.unicode_len();
    let head = text.substring_char(0, pos);
    let tail = text.substring_char(pos, n);
    let mut out = head.to_owned();
    out.append(ins);
    out.append(tail);
    out
}

} // verus!
