use vstd::prelude::*;

verus! {

broadcast use vstd::string::group_string_axioms;

/// Relies on `String::push`, which appends one character at the end.
pub assume_specification[ String::push ](s: &mut String, ch: char)
    ensures
        final(s)@ == old(s)@.push(ch),
;

/// The respawn timer of one boss, as the countdown table lists it.
pub struct Timer {
    pub id: String,
    pub date: String,
}

impl View for Timer {
    type V = (Seq<char>, Seq<char>);

    open spec fn view(&self) -> (Seq<char>, Seq<char>) {
        (self.id@, self.date@)
    }
}

/// `i` is the first position of `c` in `s`.
pub open spec fn is_first(s: Seq<char>, c: char, i: int) -> bool {
    0 <= i < s.len() && s[i] == c && forall|k: int| 0 <= k < i ==> s[k] != c
}

/// `j` is the last position of `c` in `s`.
pub open spec fn is_last(s: Seq<char>, c: char, j: int) -> bool {
    0 <= j < s.len() && s[j] == c && forall|k: int| j < k < s.len() ==> s[k] != c
}

/// `t` with every single quote turned into a double quote.
pub open spec fn swap_quotes(t: Seq<char>) -> Seq<char> {
    t.map_values(|c: char| if c == '\'' { '"' } else { c })
}

/// The object literal of a countdown script: from its first `{` to its last
/// `}`, both included, with single quotes made double so that it reads as
/// JSON. `None` where the script has no such span.
pub open spec fn object_text(s: Seq<char>) -> Option<Seq<char>> {
    if exists|i: int| is_first(s, '{', i) {
        if exists|j: int| is_last(s, '}', j) {
            let i = choose|i: int| is_first(s, '{', i);
            let j = choose|j: int| is_last(s, '}', j);
            if i <= j {
                Some(swap_quotes(s.subrange(i, j + 1)))
            } else {
                None
            }
        } else {
            None
        }
    } else {
        None
    }
}

proof fn lemma_first_unique(s: Seq<char>, c: char, i: int, i2: int)
    requires
        is_first(s, c, i),
        is_first(s, c, i2),
    ensures
        i == i2,
{
}

proof fn lemma_last_unique(s: Seq<char>, c: char, j: int, j2: int)
    requires
        is_last(s, c, j),
        is_last(s, c, j2),
    ensures
        j == j2,
{
}

fn chars_of(s: &str) -> (r: Vec<char>)
    ensures
        r@ == s@,
{
    let mut out: Vec<char> = Vec::new();
    for c in it: s.chars()
        invariant
            it.seq() == s@,
            out@ == it.seq().subrange(0, it.index() as int),
    {
        out.push(c);
    }
    out
}

/// The object literal of the countdown script `script`, made JSON.
pub fn object_literal(script: &str) -> (r: Option<String>)
    ensures
        match r {
            Some(t) => object_text(script@) == Some(t@),
            None => object_text(script@) is None,
        },
{
    let s = chars_of(script);
    let n = s.len();
    let mut i: usize = 0;
    while i < n && s[i] != '{'
        invariant
            n == s@.len(),
            i <= n,
            forall|k: int| 0 <= k < i ==> s@[k] != '{',
        decreases n - i,
    {
        i = i + 1;
    }
    if i == n {
        assert(!exists|i2: int| is_first(s@, '{', i2));
        return None;
    }
    assert(is_first(s@, '{', i as int));
    let mut j: usize = n;
    while j > 0 && s[j - 1] != '}'
        invariant
            n == s@.len(),
            j <= n,
            forall|k: int| j <= k < n ==> s@[k] != '}',
        decreases j,
    {
        j = j - 1;
    }
    if j == 0 {
        assert(!exists|j2: int| is_last(s@, '}', j2));
        return None;
    }
    assert(is_last(s@, '}', j - 1));
    proof {
        let ci = choose|i2: int| is_first(s@, '{', i2);
        let cj = choose|j2: int| is_last(s@, '}', j2);
        lemma_first_unique(s@, '{', i as int, ci);
        lemma_last_unique(s@, '}', (j - 1) as int, cj);
    }
    if j - 1 < i {
        return None;
    }
    let mut out = String::new();
    let mut k: usize = i;
    while k < j
        invariant
            n == s@.len(),
            i <= k <= j <= n,
            out@ == swap_quotes(s@.subrange(i as int, k as int)),
        decreases j - k,
    {
        let c = s[k];
        if c == '\'' {
            out.push('"');
        } else {
            out.push(c);
        }
        assert(swap_quotes(s@.subrange(i as int, k + 1)) =~= swap_quotes(
            s@.subrange(i as int, k as int),
        ).push(if c == '\'' { '"' } else { c }));
        k = k + 1;
    }
    Some(out)
}

/// The boss that a timer id stands for, where it is one that is tracked.
pub open spec fn mvp_name_of(id: Seq<char>) -> Option<Seq<char>> {
    if id == seq!['1'] {
        Some("Balam (unholy)"@)
    } else if id == seq!['2'] {
        Some("Shax (unholy)"@)
    } else if id == seq!['3'] {
        Some("Raum (unholy)"@)
    } else if id == seq!['4'] {
        Some("Paimon (unholy)"@)
    } else if id == seq!['5'] {
        Some("Apollyon (unholy)"@)
    } else {
        None
    }
}

/// The boss that the timer id `id` stands for, where it is tracked.
pub fn mvp_name(id: &str) -> (r: Option<&'static str>)
    ensures
        match r {
            Some(n) => mvp_name_of(id@) == Some(n@),
            None => mvp_name_of(id@) is None,
        },
{
    if id.unicode_len() != 1 {
        return None;
    }
    let c = id.get_char(0);
    assert(id@ =~= seq![c]);
    if c == '1' {
        Some("Balam (unholy)")
    } else if c == '2' {
        Some("Shax (unholy)")
    } else if c == '3' {
        Some("Raum (unholy)")
    } else if c == '4' {
        Some("Paimon (unholy)")
    } else if c == '5' {
        Some("Apollyon (unholy)")
    } else {
        assert(mvp_name_of(id@) is None);
        None
    }
}

/// The heading of a respawn report.
pub const REPORT_HEADING: &'static str = "MVPs respawn timers: \n";

/// The report lines of the timers `ts`, in order: one line, name, tab, date,
/// for each timer of a tracked boss; nothing for the others.
pub open spec fn report_lines(ts: Seq<(Seq<char>, Seq<char>)>) -> Seq<char>
    decreases ts.len(),
{
    if ts.len() == 0 {
        Seq::empty()
    } else {
        report_lines(ts.drop_last()) + match mvp_name_of(ts.last().0) {
            Some(name) => name + "\t"@ + ts.last().1 + "\n"@,
            None => Seq::empty(),
        }
    }
}

/// The respawn report of `timers`.
pub fn respawn_report(timers: &Vec<Timer>) -> (r: String)
    ensures
        r@ == REPORT_HEADING@ + report_lines(timers@.map_values(|t: Timer| t@)),
{
    let ghost tv = timers@.map_values(|t: Timer| t@);
    let mut out = String::from_str(REPORT_HEADING);
    let mut i: usize = 0;
    while i < timers.len()
        invariant
            i <= timers@.len(),
            tv == timers@.map_values(|t: Timer| t@),
            out@ == REPORT_HEADING@ + report_lines(tv.subrange(0, i as int)),
        decreases timers@.len() - i,
    {
        let t = &timers[i];
        assert(tv.subrange(0, i + 1).drop_last() =~= tv.subrange(0, i as int));
        match mvp_name(t.id.as_str()) {
            Some(name) => {
                out.append(name);
                out.append("\t");
                out.append(t.date.as_str());
                out.append("\n");
            },
            None => {},
        }
        assert(out@ =~= REPORT_HEADING@ + report_lines(tv.subrange(0, i + 1)));
        i = i + 1;
    }
    assert(tv.subrange(0, timers@.len() as int) =~= tv);
    out
}

} // verus!
