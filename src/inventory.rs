//! Container inventory: parses the tab-separated listing that the remote
//! inventory command prints, one container per line.
use vstd::prelude::*;
use vstd::string::*;
use crate::text::{chars_of, contains_seq, is_infix, lower_of, lowercase, starts_with_seq, trim, trim_of};

verus! {

/// `s` without one trailing carriage return.
pub open spec fn strip_cr(s: Seq<char>) -> Seq<char> {
    if s.len() > 0 && s.last() == '\r' {
        s.drop_last()
    } else {
        s
    }
}

/// The lines of `s` as `str::lines` yields them, where `cur` is the part of the
/// current line read so far: lines end at `\n` (a `\r` just before it is
/// dropped), and a final line ending adds no empty line.
pub open spec fn lines_from(s: Seq<char>, cur: Seq<char>) -> Seq<Seq<char>>
    decreases s.len(),
{
    if s.len() == 0 {
        if cur.len() == 0 {
            Seq::empty()
        } else {
            seq![cur]
        }
    } else if s[0] == '\n' {
        seq![strip_cr(cur)] + lines_from(s.drop_first(), Seq::empty())
    } else {
        lines_from(s.drop_first(), cur.push(s[0]))
    }
}

/// The lines of `s`.
pub open spec fn lines_of(s: Seq<char>) -> Seq<Seq<char>> {
    lines_from(s, Seq::empty())
}

/// The fields of `s` separated by `sep`, where `cur` is the part of the
/// current field read so far. There is always at least one field.
pub open spec fn split_from(s: Seq<char>, sep: char, cur: Seq<char>) -> Seq<Seq<char>>
    decreases s.len(),
{
    if s.len() == 0 {
        seq![cur]
    } else if s[0] == sep {
        seq![cur] + split_from(s.drop_first(), sep, Seq::empty())
    } else {
        split_from(s.drop_first(), sep, cur.push(s[0]))
    }
}

/// The fields of `s` separated by `sep`, as `str::split` yields them.
pub open spec fn split_on(s: Seq<char>, sep: char) -> Seq<Seq<char>> {
    split_from(s, sep, Seq::empty())
}

/// One container of the inventory, as values.
pub struct ContainerRecord {
    pub id: Seq<char>,
    pub name: Seq<char>,
    pub status: Seq<char>,
    pub ports: Seq<char>,
}

/// A line blank after trimming.
pub open spec fn is_blank(line: Seq<char>) -> bool {
    trim_of(line).len() == 0
}

/// The record a line gives, where `blank` tells whether it is blank after
/// trimming: none for a blank line or one with fewer than three
/// tab-separated fields; else id, name, status and the fourth field as ports
/// (empty when there is no fourth field).
pub open spec fn record_when(line: Seq<char>, blank: bool) -> Option<ContainerRecord> {
    let fields = split_on(line, '\t');
    if blank || fields.len() < 3 {
        None
    } else {
        Some(
            ContainerRecord {
                id: fields[0],
                name: fields[1],
                status: fields[2],
                ports: if fields.len() > 3 {
                    fields[3]
                } else {
                    Seq::empty()
                },
            },
        )
    }
}

/// The record a line gives.
pub open spec fn record_of(line: Seq<char>) -> Option<ContainerRecord> {
    record_when(line, is_blank(line))
}

/// The records that a sequence of lines gives, in order.
pub open spec fn records_of(lines: Seq<Seq<char>>) -> Seq<ContainerRecord>
    decreases lines.len(),
{
    if lines.len() == 0 {
        Seq::empty()
    } else {
        match record_of(lines[0]) {
            Some(r) => seq![r] + records_of(lines.drop_first()),
            None => records_of(lines.drop_first()),
        }
    }
}

/// The records that an inventory listing gives.
pub open spec fn inventory_of(output: Seq<char>) -> Seq<ContainerRecord> {
    records_of(lines_of(output))
}

/// Container status information.
#[derive(Debug, Clone)]
pub struct ContainerStatus {
    pub id: String,
    pub name: String,
    pub status: String,
    pub ports: String,
}

impl View for ContainerStatus {
    type V = ContainerRecord;

    open spec fn view(&self) -> ContainerRecord {
        ContainerRecord { id: self.id@, name: self.name@, status: self.status@, ports: self.ports@ }
    }
}

/// The views of a list of statuses.
pub open spec fn records_view(v: Seq<ContainerStatus>) -> Seq<ContainerRecord> {
    v.map_values(|c: ContainerStatus| c@)
}

/// Splitting always gives at least one field.
pub proof fn lemma_split_nonempty(s: Seq<char>, sep: char, cur: Seq<char>)
    ensures
        split_from(s, sep, cur).len() >= 1,
    decreases s.len(),
{
    if s.len() > 0 {
        if s[0] != sep {
            lemma_split_nonempty(s.drop_first(), sep, cur.push(s[0]));
        }
    }
}

/// Splits `s` on `sep` into owned fields.
pub fn split_fields(s: &str, sep: char) -> (r: Vec<String>)
    ensures
        r.deep_view() == split_on(s@, sep),
{
    let cs = chars_of(s);
    let n = cs.len();
    let mut out: Vec<String> = Vec::new();
    let mut start: usize = 0;
    let mut i: usize = 0;
    assert(s@.subrange(0, n as int) =~= s@);
    assert(s@.subrange(0, 0) =~= Seq::<char>::empty());
    while i < n
        invariant
            cs@ == s@,
            n == s@.len(),
            0 <= start <= i <= n,
            out.deep_view() + split_from(s@.subrange(i as int, n as int), sep, s@.subrange(start as int, i as int))
                == split_on(s@, sep),
        decreases n - i,
    {
        let ghost rest = s@.subrange(i as int, n as int);
        assert(rest[0] == cs@[i as int]);
        assert(rest.drop_first() =~= s@.subrange(i + 1, n as int));
        if cs[i] == sep {
            let field = String::from_str(s.substring_char(start, i));
            proof {
                let tail = split_from(s@.subrange(i + 1, n as int), sep, Seq::empty());
                assert(out.deep_view().push(field@) + tail =~= out.deep_view() + (seq![field@] + tail));
            }
            out.push(field);
            proof {
                assert(s@.subrange(i + 1, i + 1) =~= Seq::<char>::empty());
            }
            start = i + 1;
        } else {
            assert(s@.subrange(start as int, i as int).push(cs@[i as int]) =~= s@.subrange(start as int, i + 1));
        }
        i += 1;
    }
    let last = String::from_str(s.substring_char(start, n));
    proof {
        assert(s@.subrange(n as int, n as int) =~= Seq::<char>::empty());
        assert(out.deep_view().push(last@) =~= out.deep_view() + seq![last@]);
    }
    out.push(last);
    out
}

/// The record that one line gives, given whether it is blank.
pub fn record_from_line(line: &str, blank: bool) -> (r: Option<ContainerStatus>)
    ensures
        match r {
            Some(c) => record_when(line@, blank) == Some(c@),
            None => record_when(line@, blank) is None,
        },
{
    if blank {
        return None;
    }
    let fields = split_fields(line, '\t');
    assert(fields.deep_view().len() == fields@.len());
    if fields.len() < 3 {
        return None;
    }
    let ports = if fields.len() > 3 {
        fields[3].clone()
    } else {
        String::new()
    };
    assert(fields.deep_view()[0] == fields@[0]@);
    assert(fields.deep_view()[1] == fields@[1]@);
    assert(fields.deep_view()[2] == fields@[2]@);
    assert(fields.len() > 3 ==> fields.deep_view()[3] == fields@[3]@);
    Some(
        ContainerStatus {
            id: fields[0].clone(),
            name: fields[1].clone(),
            status: fields[2].clone(),
            ports,
        },
    )
}

/// The record that one line gives, if any.
pub fn parse_line(line: &str) -> (r: Option<ContainerStatus>)
    ensures
        match r {
            Some(c) => record_of(line@) == Some(c@),
            None => record_of(line@) is None,
        },
{
    let trimmed = trim(line);
    record_from_line(line, trimmed.unicode_len() == 0)
}

proof fn lemma_records_cons(l: Seq<char>, ls: Seq<Seq<char>>)
    ensures
        records_of(seq![l] + ls) == match record_of(l) {
            Some(r) => seq![r] + records_of(ls),
            None => records_of(ls),
        },
{
    assert((seq![l] + ls).drop_first() =~= ls);
    assert((seq![l] + ls)[0] == l);
}

/// Parses an inventory listing into container records: one per line that is
/// not blank and has at least three tab-separated fields, in input order.
pub fn parse_container_status(output: &str) -> (r: Vec<ContainerStatus>)
    ensures
        records_view(r@) == inventory_of(output@),
{
    let cs = chars_of(output);
    let n = cs.len();
    let mut out: Vec<ContainerStatus> = Vec::new();
    let mut start: usize = 0;
    let mut i: usize = 0;
    assert(output@.subrange(0, n as int) =~= output@);
    assert(output@.subrange(0, 0) =~= Seq::<char>::empty());
    assert(records_view(out@) =~= Seq::<ContainerRecord>::empty());
    while i < n
        invariant
            cs@ == output@,
            n == output@.len(),
            0 <= start <= i <= n,
            records_view(out@) + records_of(
                lines_from(output@.subrange(i as int, n as int), output@.subrange(start as int, i as int)),
            ) == inventory_of(output@),
        decreases n - i,
    {
        let ghost rest = output@.subrange(i as int, n as int);
        let ghost cur = output@.subrange(start as int, i as int);
        assert(rest[0] == cs@[i as int]);
        assert(rest.drop_first() =~= output@.subrange(i + 1, n as int));
        if cs[i] == '\n' {
            let end: usize = if i > start && cs[i - 1] == '\r' {
                i - 1
            } else {
                i
            };
            assert(output@.subrange(start as int, end as int) == strip_cr(cur)) by {
                if i > start && cs@[i - 1] == '\r' {
                    assert(cur.last() == '\r');
                    assert(cur.drop_last() =~= output@.subrange(start as int, end as int));
                } else {
                    assert(cur.len() == 0 || cur.last() != '\r');
                }
            }
            let line = output.substring_char(start, end);
            let parsed = parse_line(line);
            let ghost tail = lines_from(output@.subrange(i + 1, n as int), Seq::empty());
            proof {
                lemma_records_cons(strip_cr(cur), tail);
            }
            match parsed {
                Some(rec) => {
                    proof {
                        assert(records_view(out@.push(rec)) =~= records_view(out@) + seq![rec@]);
                        assert(records_view(out@) + seq![rec@] + records_of(tail)
                            =~= records_view(out@) + (seq![rec@] + records_of(tail)));
                    }
                    out.push(rec);
                },
                None => {},
            }
            proof {
                assert(output@.subrange(i + 1, i + 1) =~= Seq::<char>::empty());
            }
            start = i + 1;
        } else {
            assert(cur.push(cs@[i as int]) =~= output@.subrange(start as int, i + 1));
        }
        i += 1;
    }
    assert(output@.subrange(n as int, n as int) =~= Seq::<char>::empty());
    if start < n {
        let line = output.substring_char(start, n);
        let ghost cur = output@.subrange(start as int, n as int);
        proof {
            lemma_records_cons(cur, Seq::empty());
            assert(seq![cur] + Seq::<Seq<char>>::empty() =~= seq![cur]);
        }
        match parse_line(line) {
            Some(rec) => {
                proof {
                    assert(records_view(out@.push(rec)) =~= records_view(out@) + seq![rec@]);
                    assert(seq![rec@] + records_of(Seq::<Seq<char>>::empty()) =~= seq![rec@]);
                }
                out.push(rec);
            },
            None => {
                assert(records_view(out@) + records_of(Seq::<Seq<char>>::empty()) =~= records_view(out@));
            },
        }
    } else {
        assert(records_view(out@) + Seq::<ContainerRecord>::empty() =~= records_view(out@));
    }
    out
}

/// A line with fewer than three tab-separated fields gives no record.
pub proof fn lemma_short_line_dropped(line: Seq<char>)
    requires
        split_on(line, '\t').len() < 3,
    ensures
        record_of(line) is None,
        records_of(seq![line]) == Seq::<ContainerRecord>::empty(),
{
    lemma_records_cons(line, Seq::empty());
}

/// Input whose every line is blank gives no records.
pub proof fn lemma_blank_input_empty(output: Seq<char>)
    requires
        forall|i: int| 0 <= i < lines_of(output).len() ==> is_blank(#[trigger] lines_of(output)[i]),
    ensures
        inventory_of(output) == Seq::<ContainerRecord>::empty(),
{
    lemma_blank_lines_empty(lines_of(output));
}

proof fn lemma_blank_lines_empty(lines: Seq<Seq<char>>)
    requires
        forall|i: int| 0 <= i < lines.len() ==> is_blank(#[trigger] lines[i]),
    ensures
        records_of(lines) == Seq::<ContainerRecord>::empty(),
    decreases lines.len(),
{
    if lines.len() > 0 {
        assert(is_blank(lines[0]));
        assert forall|i: int| 0 <= i < lines.drop_first().len() implies is_blank(
            #[trigger] lines.drop_first()[i],
        ) by {
            assert(lines.drop_first()[i] == lines[i + 1]);
        }
        lemma_blank_lines_empty(lines.drop_first());
    }
}

proof fn lemma_split_field(a: Seq<char>, rest: Seq<char>, sep: char, cur: Seq<char>)
    requires
        forall|i: int| 0 <= i < a.len() ==> #[trigger] a[i] != sep,
    ensures
        split_from(a + seq![sep] + rest, sep, cur) == seq![cur + a] + split_from(rest, sep, Seq::empty()),
    decreases a.len(),
{
    let s = a + seq![sep] + rest;
    if a.len() > 0 {
        assert(s[0] == a[0]);
        assert(s.drop_first() =~= a.drop_first() + seq![sep] + rest);
        assert forall|i: int| 0 <= i < a.drop_first().len() implies #[trigger] a.drop_first()[i]
            != sep by {
            assert(a.drop_first()[i] == a[i + 1]);
        }
        lemma_split_field(a.drop_first(), rest, sep, cur.push(a[0]));
        assert(cur.push(a[0]) + a.drop_first() =~= cur + a);
    } else {
        assert(s[0] == sep);
        assert(s.drop_first() =~= rest);
        assert(cur + a =~= cur);
    }
}

proof fn lemma_split_last(a: Seq<char>, sep: char, cur: Seq<char>)
    requires
        forall|i: int| 0 <= i < a.len() ==> #[trigger] a[i] != sep,
    ensures
        split_from(a, sep, cur) == seq![cur + a],
    decreases a.len(),
{
    if a.len() > 0 {
        assert forall|i: int| 0 <= i < a.drop_first().len() implies #[trigger] a.drop_first()[i]
            != sep by {
            assert(a.drop_first()[i] == a[i + 1]);
        }
        lemma_split_last(a.drop_first(), sep, cur.push(a[0]));
        assert(cur.push(a[0]) + a.drop_first() =~= cur + a);
    } else {
        assert(cur + a =~= cur);
    }
}

proof fn lemma_one_line(a: Seq<char>, cur: Seq<char>)
    requires
        forall|i: int| 0 <= i < a.len() ==> #[trigger] a[i] != '\n',
    ensures
        lines_from(a + seq!['\n'], cur) == seq![strip_cr(cur + a)],
    decreases a.len(),
{
    let s = a + seq!['\n'];
    if a.len() > 0 {
        assert(s[0] == a[0]);
        assert(a[0] != '\n');
        assert(s.drop_first() =~= a.drop_first() + seq!['\n']);
        assert forall|i: int| 0 <= i < a.drop_first().len() implies #[trigger] a.drop_first()[i]
            != '\n' by {
            assert(a.drop_first()[i] == a[i + 1]);
        }
        lemma_one_line(a.drop_first(), cur.push(a[0]));
        assert(cur.push(a[0]) + a.drop_first() =~= cur + a);
        assert(lines_from(s, cur) == lines_from(s.drop_first(), cur.push(s[0])));
    } else {
        assert(s[0] == '\n');
        assert(s.drop_first() =~= Seq::<char>::empty());
        assert(cur + a =~= cur);
        assert(lines_from(Seq::<char>::empty(), Seq::<char>::empty()) == Seq::<Seq<char>>::empty());
        assert(lines_from(s, cur) == seq![strip_cr(cur)] + lines_from(s.drop_first(), Seq::empty()));
        assert(seq![strip_cr(cur)] + Seq::<Seq<char>>::empty() =~= seq![strip_cr(cur)]);
    }
}

/// A field that a listing can carry: no tab and no line break.
pub open spec fn is_field(t: Seq<char>) -> bool {
    forall|i: int| 0 <= i < t.len() ==> #[trigger] t[i] != '\t' && t[i] != '\n' && t[i] != '\r'
}

/// The listing line of a record: its four fields separated by tabs.
pub open spec fn line_of(r: ContainerRecord) -> Seq<char> {
    r.id + seq!['\t'] + r.name + seq!['\t'] + r.status + seq!['\t'] + r.ports
}

/// Round trip: a record whose fields hold no tab or line break, written as a
/// newline-ended listing line that is not blank, parses back to exactly that
/// record.
pub proof fn lemma_round_trip(r: ContainerRecord)
    requires
        is_field(r.id),
        is_field(r.name),
        is_field(r.status),
        is_field(r.ports),
        !is_blank(line_of(r)),
    ensures
        inventory_of(line_of(r) + seq!['\n']) == seq![r],
{
    let line = line_of(r);
    let e = Seq::<char>::empty();
    let t1 = r.name + seq!['\t'] + r.status + seq!['\t'] + r.ports;
    let t2 = r.status + seq!['\t'] + r.ports;
    assert(line =~= r.id + seq!['\t'] + t1);
    assert(t1 =~= r.name + seq!['\t'] + t2);
    lemma_split_field(r.id, t1, '\t', e);
    lemma_split_field(r.name, t2, '\t', e);
    lemma_split_field(r.status, r.ports, '\t', e);
    lemma_split_last(r.ports, '\t', e);
    assert(e + r.id =~= r.id);
    assert(e + r.name =~= r.name);
    assert(e + r.status =~= r.status);
    assert(e + r.ports =~= r.ports);
    let fields = split_on(line, '\t');
    assert(fields =~= seq![r.id, r.name, r.status, r.ports]);
    assert forall|i: int| 0 <= i < line.len() implies #[trigger] line[i] != '\n' && line[i] != '\r' by {
        let a = r.id.len();
        let b = a + 1 + r.name.len();
        let c = b + 1 + r.status.len();
        if i < a {
            assert(line[i] == r.id[i]);
        } else if i == a {
            assert(line[i] == '\t');
        } else if i < b {
            assert(line[i] == r.name[i - a - 1]);
        } else if i == b {
            assert(line[i] == '\t');
        } else if i < c {
            assert(line[i] == r.status[i - b - 1]);
        } else if i == c {
            assert(line[i] == '\t');
        } else {
            assert(line[i] == r.ports[i - c - 1]);
        }
    }
    lemma_one_line(line, e);
    assert(e + line =~= line);
    assert(line.len() > 0);
    assert(strip_cr(line) == line);
    lemma_records_cons(line, Seq::empty());
    assert(record_of(line) == Some(r));
    assert(seq![r] + records_of(Seq::<Seq<char>>::empty()) =~= seq![r]);
}

/// CSS badge class for a container status text.
pub open spec fn status_class_of(lower: Seq<char>) -> Seq<char> {
    if "up"@.is_prefix_of(lower) {
        "bg-green-100 text-green-800"@
    } else if is_infix("exited"@, lower) || is_infix("dead"@, lower) {
        "bg-red-100 text-red-800"@
    } else if is_infix("restarting"@, lower) || is_infix("paused"@, lower) {
        "bg-yellow-100 text-yellow-800"@
    } else {
        "bg-gray-100 text-gray-800"@
    }
}

/// Badge class for a status text given in lower case.
pub fn status_class_for_lower(lower: &str) -> (r: String)
    ensures
        r@ == status_class_of(lower@),
{
    let l = chars_of(lower);
    if starts_with_seq(&l, &chars_of("up")) {
        String::from_str("bg-green-100 text-green-800")
    } else if contains_seq(&l, &chars_of("exited")) || contains_seq(&l, &chars_of("dead")) {
        String::from_str("bg-red-100 text-red-800")
    } else if contains_seq(&l, &chars_of("restarting")) || contains_seq(&l, &chars_of("paused")) {
        String::from_str("bg-yellow-100 text-yellow-800")
    } else {
        String::from_str("bg-gray-100 text-gray-800")
    }
}

/// Badge class for a container status text, compared without regard to case.
pub fn get_container_status_class(status: &str) -> (r: String)
    ensures
        r@ == status_class_of(lower_of(status@)),
{
    let lower = lowercase(status);
    status_class_for_lower(lower.as_str())
}

} // verus!
