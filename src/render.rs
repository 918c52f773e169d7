use vstd::prelude::*;
use crate::decimal::{decimal, push_decimal};
use crate::user::User;

verus! {

/// One exposition line: `<field>{name="<account>"} <value>` and a line break.
pub open spec fn metric_line(field: Seq<char>, name: Seq<char>, value: Seq<char>) -> Seq<char> {
    field + "{name=\""@ + name + "\"} "@ + value + "\n"@
}

/// The snake-case name of the `k`-th field of [`User`].
pub open spec fn field_name(k: int) -> Seq<char> {
    if k == 0 {
        "uploaded_bytes"@
    } else if k == 1 {
        "downloaded_bytes"@
    } else if k == 2 {
        "ratio"@
    } else if k == 3 {
        "required_ratio"@
    } else if k == 4 {
        "perfect_flacs"@
    } else if k == 5 {
        "uploaded_count"@
    } else if k == 6 {
        "seeding"@
    } else if k == 7 {
        "leeching"@
    } else {
        "snatched"@
    }
}

/// The text of the `k`-th field of `u`, or `None` where the field is absent.
pub open spec fn field_value(u: User, k: int) -> Option<Seq<char>> {
    if k == 0 {
        Some(decimal(u.uploaded_bytes as nat))
    } else if k == 1 {
        Some(decimal(u.downloaded_bytes as nat))
    } else if k == 2 {
        Some(u.ratio@)
    } else if k == 3 {
        Some(u.required_ratio@)
    } else if k == 4 {
        match u.perfect_flacs {
            Some(p) => Some(decimal(p as nat)),
            None => None,
        }
    } else if k == 5 {
        Some(decimal(u.uploaded_count as nat))
    } else if k == 6 {
        Some(decimal(u.seeding as nat))
    } else if k == 7 {
        Some(decimal(u.leeching as nat))
    } else {
        Some(decimal(u.snatched as nat))
    }
}

/// The line that the `k`-th field of `u` contributes: empty where the field is absent.
pub open spec fn field_line(u: User, name: Seq<char>, k: int) -> Seq<char> {
    match field_value(u, k) {
        Some(v) => metric_line(field_name(k), name, v),
        None => Seq::empty(),
    }
}

/// The lines of the first `k` fields of `u`, in field order.
pub open spec fn rendered_fields(u: User, name: Seq<char>, k: nat) -> Seq<char>
    decreases k,
{
    if k == 0 {
        Seq::empty()
    } else {
        rendered_fields(u, name, (k - 1) as nat) + field_line(u, name, k - 1)
    }
}

/// The exposition text of one account: the lines of all nine fields.
pub open spec fn rendered(u: User, name: Seq<char>) -> Seq<char> {
    rendered_fields(u, name, 9)
}

fn push_line_start(out: &mut String, field: &str, name: &str)
    ensures
        final(out)@ == old(out)@ + field@ + "{name=\""@ + name@ + "\"} "@,
{
    out.append(field);
    out.append("{name=\"");
    out.append(name);
    out.append("\"} ");
    assert(out@ =~= old(out)@ + field@ + "{name=\""@ + name@ + "\"} "@);
}

fn push_number_line(out: &mut String, field: &str, name: &str, value: u64)
    ensures
        final(out)@ == old(out)@ + metric_line(field@, name@, decimal(value as nat)),
{
    push_line_start(out, field, name);
    push_decimal(out, value);
    out.append("\n");
    assert(out@ =~= old(out)@ + metric_line(field@, name@, decimal(value as nat)));
}

fn push_text_line(out: &mut String, field: &str, name: &str, value: &str)
    ensures
        final(out)@ == old(out)@ + metric_line(field@, name@, value@),
{
    push_line_start(out, field, name);
    out.append(value);
    out.append("\n");
    assert(out@ =~= old(out)@ + metric_line(field@, name@, value@));
}

/// Renders `user` as exposition text labelled with the account `name`:
/// one line per field, in field order, the absent optional field omitted.
pub fn render(user: &User, name: &str) -> (r: String)
    ensures
        r@ == rendered(*user, name@),
{
    let ghost u = *user;
    let ghost n = name@;
    let mut out = String::new();
    assert(out@ =~= rendered_fields(u, n, 0));
    push_number_line(&mut out, "uploaded_bytes", name, user.uploaded_bytes);
    assert(out@ =~= rendered_fields(u, n, 1));
    push_number_line(&mut out, "downloaded_bytes", name, user.downloaded_bytes);
    assert(out@ =~= rendered_fields(u, n, 2));
    push_text_line(&mut out, "ratio", name, user.ratio.as_str());
    assert(out@ =~= rendered_fields(u, n, 3));
    push_text_line(&mut out, "required_ratio", name, user.required_ratio.as_str());
    assert(out@ =~= rendered_fields(u, n, 4));
    match user.perfect_flacs {
        Some(p) => push_number_line(&mut out, "perfect_flacs", name, p as u64),
        None => {},
    }
    assert(out@ =~= rendered_fields(u, n, 5));
    push_number_line(&mut out, "uploaded_count", name, user.uploaded_count as u64);
    assert(out@ =~= rendered_fields(u, n, 6));
    push_number_line(&mut out, "seeding", name, user.seeding as u64);
    assert(out@ =~= rendered_fields(u, n, 7));
    push_number_line(&mut out, "leeching", name, user.leeching as u64);
    assert(out@ =~= rendered_fields(u, n, 8));
    push_number_line(&mut out, "snatched", name, user.snatched as u64);
    assert(out@ =~= rendered_fields(u, n, 9));
    out
}

} // verus!

verus! {

/// The number of line breaks in `s`, that is its number of complete lines.
pub open spec fn line_breaks(s: Seq<char>) -> nat
    decreases s.len(),
{
    if s.len() == 0 {
        0
    } else {
        line_breaks(s.drop_last()) + if s.last() == '\n' {
            1nat
        } else {
            0nat
        }
    }
}

/// `s` holds no line break.
pub open spec fn single_line(s: Seq<char>) -> bool {
    forall|i: int| 0 <= i < s.len() ==> s[i] != '\n'
}

/// Line breaks add up over concatenation.
pub proof fn lemma_line_breaks_add(a: Seq<char>, b: Seq<char>)
    ensures
        line_breaks(a + b) == line_breaks(a) + line_breaks(b),
    decreases b.len(),
{
    if b.len() == 0 {
        assert(a + b =~= a);
    } else {
        assert((a + b).drop_last() =~= a + b.drop_last());
        assert((a + b).last() == b.last());
        lemma_line_breaks_add(a, b.drop_last());
    }
}

proof fn lemma_single_line_breaks(s: Seq<char>)
    requires
        single_line(s),
    ensures
        line_breaks(s) == 0,
    decreases s.len(),
{
    if s.len() > 0 {
        lemma_single_line_breaks(s.drop_last());
    }
}

/// A line whose field, label and value hold no line break is exactly one line.
pub proof fn lemma_metric_line_breaks(field: Seq<char>, name: Seq<char>, value: Seq<char>)
    requires
        single_line(field),
        single_line(name),
        single_line(value),
    ensures
        line_breaks(metric_line(field, name, value)) == 1,
{
    reveal_strlit("{name=\"");
    reveal_strlit("\"} ");
    reveal_strlit("\n");
    let open_label = "{name=\""@;
    let close_label = "\"} "@;
    let end = "\n"@;
    lemma_single_line_breaks(field);
    lemma_single_line_breaks(name);
    lemma_single_line_breaks(value);
    lemma_single_line_breaks(open_label);
    lemma_single_line_breaks(close_label);
    assert(end.drop_last() =~= Seq::<char>::empty());
    assert(end.last() == '\n');
    assert(line_breaks(end.drop_last()) == 0);
    assert(line_breaks(end) == 1);
    lemma_line_breaks_add(field, open_label);
    lemma_line_breaks_add(field + open_label, name);
    lemma_line_breaks_add(field + open_label + name, close_label);
    lemma_line_breaks_add(field + open_label + name + close_label, value);
    lemma_line_breaks_add(field + open_label + name + close_label + value, end);
}

proof fn lemma_field_name_single_line(k: int)
    ensures
        single_line(field_name(k)),
{
    reveal_strlit("uploaded_bytes");
    reveal_strlit("downloaded_bytes");
    reveal_strlit("ratio");
    reveal_strlit("required_ratio");
    reveal_strlit("perfect_flacs");
    reveal_strlit("uploaded_count");
    reveal_strlit("seeding");
    reveal_strlit("leeching");
    reveal_strlit("snatched");
}

/// The account label and the two ratio texts hold no line break.
pub open spec fn renders_in_lines(u: User, name: Seq<char>) -> bool {
    single_line(name) && single_line(u.ratio@) && single_line(u.required_ratio@)
}

proof fn lemma_field_line_breaks(u: User, name: Seq<char>, k: int)
    requires
        renders_in_lines(u, name),
    ensures
        line_breaks(field_line(u, name, k)) == if field_value(u, k) is Some {
            1nat
        } else {
            0nat
        },
{
    match field_value(u, k) {
        Some(v) => {
            lemma_field_name_single_line(k);
            if k == 0 {
                crate::decimal::lemma_decimal_shape(u.uploaded_bytes as nat);
            } else if k == 1 {
                crate::decimal::lemma_decimal_shape(u.downloaded_bytes as nat);
            } else if k == 4 {
                crate::decimal::lemma_decimal_shape(u.perfect_flacs.unwrap() as nat);
            } else if k == 5 {
                crate::decimal::lemma_decimal_shape(u.uploaded_count as nat);
            } else if k == 6 {
                crate::decimal::lemma_decimal_shape(u.seeding as nat);
            } else if k == 7 {
                crate::decimal::lemma_decimal_shape(u.leeching as nat);
            } else if k != 2 && k != 3 {
                crate::decimal::lemma_decimal_shape(u.snatched as nat);
            }
            lemma_metric_line_breaks(field_name(k), name, v);
        },
        None => {},
    }
}

proof fn lemma_rendered_fields_line_breaks(u: User, name: Seq<char>, k: nat)
    requires
        renders_in_lines(u, name),
        k <= 9,
    ensures
        line_breaks(rendered_fields(u, name, k)) == if u.perfect_flacs is None && k >= 5 {
            k - 1
        } else {
            k as int
        },
    decreases k,
{
    if k > 0 {
        lemma_rendered_fields_line_breaks(u, name, (k - 1) as nat);
        lemma_field_line_breaks(u, name, k - 1);
        lemma_line_breaks_add(rendered_fields(u, name, (k - 1) as nat), field_line(u, name, k - 1));
    }
}

/// One account renders as nine lines, or eight where the optional
/// perfect-FLAC count is absent.
pub proof fn lemma_rendered_line_count(u: User, name: Seq<char>)
    requires
        renders_in_lines(u, name),
    ensures
        line_breaks(rendered(u, name)) == if u.perfect_flacs is Some {
            9nat
        } else {
            8nat
        },
{
    lemma_rendered_fields_line_breaks(u, name, 9);
}

} // verus!

verus! {

/// The `k`-th field holds the same value in `u1` and in `u2`.
pub open spec fn same_field(u1: User, u2: User, k: int) -> bool {
    if k == 0 {
        u1.uploaded_bytes == u2.uploaded_bytes
    } else if k == 1 {
        u1.downloaded_bytes == u2.downloaded_bytes
    } else if k == 2 {
        u1.ratio@ == u2.ratio@
    } else if k == 3 {
        u1.required_ratio@ == u2.required_ratio@
    } else if k == 4 {
        u1.perfect_flacs == u2.perfect_flacs
    } else if k == 5 {
        u1.uploaded_count == u2.uploaded_count
    } else if k == 6 {
        u1.seeding == u2.seeding
    } else if k == 7 {
        u1.leeching == u2.leeching
    } else {
        u1.snatched == u2.snatched
    }
}

proof fn lemma_metric_line_value_injective(
    field: Seq<char>,
    name: Seq<char>,
    v1: Seq<char>,
    v2: Seq<char>,
)
    requires
        metric_line(field, name, v1) == metric_line(field, name, v2),
    ensures
        v1 == v2,
{
    let head = field + "{name=\""@ + name + "\"} "@;
    let l1 = metric_line(field, name, v1);
    let l2 = metric_line(field, name, v2);
    assert(l1 =~= head + v1 + "\n"@);
    assert(l2 =~= head + v2 + "\n"@);
    assert(l1.subrange(head.len() as int, head.len() + v1.len() as int) =~= v1);
    assert(l2.subrange(head.len() as int, head.len() + v2.len() as int) =~= v2);
}

proof fn lemma_field_line_follows_value(u1: User, u2: User, name: Seq<char>, k: int)
    requires
        0 <= k < 9,
    ensures
        same_field(u1, u2, k) <==> field_line(u1, name, k) == field_line(u2, name, k),
{
    if field_line(u1, name, k) == field_line(u2, name, k) {
        match (field_value(u1, k), field_value(u2, k)) {
            (Some(v1), Some(v2)) => {
                lemma_metric_line_value_injective(field_name(k), name, v1, v2);
                if k == 0 {
                    crate::decimal::lemma_decimal_injective(
                        u1.uploaded_bytes as nat,
                        u2.uploaded_bytes as nat,
                    );
                } else if k == 1 {
                    crate::decimal::lemma_decimal_injective(
                        u1.downloaded_bytes as nat,
                        u2.downloaded_bytes as nat,
                    );
                } else if k == 4 {
                    crate::decimal::lemma_decimal_injective(
                        u1.perfect_flacs.unwrap() as nat,
                        u2.perfect_flacs.unwrap() as nat,
                    );
                } else if k == 5 {
                    crate::decimal::lemma_decimal_injective(
                        u1.uploaded_count as nat,
                        u2.uploaded_count as nat,
                    );
                } else if k == 6 {
                    crate::decimal::lemma_decimal_injective(u1.seeding as nat, u2.seeding as nat);
                } else if k == 7 {
                    crate::decimal::lemma_decimal_injective(u1.leeching as nat, u2.leeching as nat);
                } else if k == 8 {
                    crate::decimal::lemma_decimal_injective(u1.snatched as nat, u2.snatched as nat);
                }
            },
            (Some(v1), None) => {
                assert(field_line(u1, name, k).len() > 0);
            },
            (None, Some(v2)) => {
                assert(field_line(u2, name, k).len() > 0);
            },
            (None, None) => {},
        }
    }
}

/// Changing one field of a record changes that field's line, and no other
/// line of the account's text.
pub proof fn lemma_single_field_change(u1: User, u2: User, name: Seq<char>, k: int)
    requires
        0 <= k < 9,
        !same_field(u1, u2, k),
        forall|j: int| 0 <= j < 9 && j != k ==> same_field(u1, u2, j),
    ensures
        field_line(u1, name, k) != field_line(u2, name, k),
        forall|j: int|
            0 <= j < 9 && j != k ==> field_line(u1, name, j) == field_line(u2, name, j),
{
    lemma_field_line_follows_value(u1, u2, name, k);
    assert forall|j: int| 0 <= j < 9 && j != k implies field_line(u1, name, j) == field_line(
        u2,
        name,
        j,
    ) by {
        lemma_field_line_follows_value(u1, u2, name, j);
    }
}

} // verus!
