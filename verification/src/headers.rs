//! The one table of headers that cross the gateway in each direction, and the
//! selection of those headers from a message.

use vstd::prelude::*;
use crate::fields::{fields_view, Field};
use crate::text::{eq_ignore_ascii_case, same_ignoring_ascii_case};

verus! {

/// One header of an inbound request or of an upstream response. The value is
/// `None` where the header does not hold visible text.
#[derive(Debug)]
pub struct HeaderEntry {
    pub name: String,
    pub value: Option<String>,
}

impl View for HeaderEntry {
    type V = (Seq<char>, Option<Seq<char>>);

    open spec fn view(&self) -> (Seq<char>, Option<Seq<char>>) {
        (
            self.name@,
            match self.value {
                Some(v) => Some(v@),
                None => None,
            },
        )
    }
}

/// The views of a list of headers, in order.
pub open spec fn entries_view(entries: Seq<HeaderEntry>) -> Seq<(Seq<char>, Option<Seq<char>>)> {
    entries.map_values(|e: HeaderEntry| e@)
}

/// The request headers that are forwarded upstream, in the order in which
/// they are sent.
pub open spec fn inbound_allowed() -> Seq<Seq<char>> {
    seq!["content-type"@, "range"@, "accept"@]
}

/// The response headers that are relayed to the client, in the order in
/// which they are sent.
pub open spec fn outbound_allowed() -> Seq<Seq<char>> {
    seq!["content-type"@, "content-length"@, "content-range"@, "accept-ranges"@]
}

/// The text of the header `name`: the value of the first entry that bears the
/// name, in whatever case, if that value is text.
pub open spec fn header_value(
    entries: Seq<(Seq<char>, Option<Seq<char>>)>,
    name: Seq<char>,
) -> Option<Seq<char>>
    decreases entries.len(),
{
    if entries.len() == 0 {
        None
    } else if same_ignoring_ascii_case(entries[0].0, name) {
        entries[0].1
    } else {
        header_value(entries.drop_first(), name)
    }
}

/// What the header `name` contributes to a forwarded message: itself with its
/// text, or nothing.
pub open spec fn passed_header(
    entries: Seq<(Seq<char>, Option<Seq<char>>)>,
    name: Seq<char>,
) -> Seq<(Seq<char>, Seq<char>)> {
    match header_value(entries, name) {
        Some(value) => seq![(name, value)],
        None => Seq::empty(),
    }
}

/// The headers of a message that cross the gateway: for each allowed name in
/// turn, the header of that name, if the message has it as text.
pub open spec fn passed_headers(
    entries: Seq<(Seq<char>, Option<Seq<char>>)>,
    allowed: Seq<Seq<char>>,
) -> Seq<(Seq<char>, Seq<char>)>
    decreases allowed.len(),
{
    if allowed.len() == 0 {
        Seq::empty()
    } else {
        passed_headers(entries, allowed.drop_last()) + passed_header(entries, allowed.last())
    }
}

/// Nothing but allowed headers crosses, and each that does carries the text
/// that the message has under its name.
pub proof fn lemma_passed_headers_allowed(
    entries: Seq<(Seq<char>, Option<Seq<char>>)>,
    allowed: Seq<Seq<char>>,
)
    ensures
        passed_headers(entries, allowed).len() <= allowed.len(),
        forall|i: int|
            0 <= i < passed_headers(entries, allowed).len() ==> {
                let field = #[trigger] passed_headers(entries, allowed)[i];
                allowed.contains(field.0) && header_value(entries, field.0) == Some(field.1)
            },
    decreases allowed.len(),
{
    if allowed.len() > 0 {
        let front = allowed.drop_last();
        lemma_passed_headers_allowed(entries, front);
        let before = passed_headers(entries, front);
        let all = passed_headers(entries, allowed);
        assert forall|i: int| 0 <= i < all.len() implies {
            let field = #[trigger] all[i];
            allowed.contains(field.0) && header_value(entries, field.0) == Some(field.1)
        } by {
            if i < before.len() {
                assert(all[i] == before[i]);
                let k = choose|k: int| 0 <= k < front.len() && front[k] == before[i].0;
                assert(allowed[k] == before[i].0);
            } else {
                assert(all[i].0 == allowed.last());
                assert(allowed[allowed.len() - 1] == allowed.last());
            }
        }
    }
}

/// Finds the text of the header `name`.
pub fn find_header<'a>(entries: &'a Vec<HeaderEntry>, name: &str) -> (out: Option<&'a str>)
    ensures
        crate::fields::opt_text(out) == header_value(entries_view(entries@), name@),
{
    let ghost all = entries_view(entries@);
    let mut i: usize = 0;
    assert(all.skip(0) == all);
    while i < entries.len()
        invariant
            i <= entries.len(),
            all == entries_view(entries@),
            header_value(all, name@) == header_value(all.skip(i as int), name@),
        decreases entries.len() - i,
    {
        let entry = &entries[i];
        proof {
            let rest = all.skip(i as int);
            assert(rest[0] == entry@);
            assert(rest.drop_first() == all.skip(i + 1));
        }
        if eq_ignore_ascii_case(entry.name.as_str(), name) {
            return match &entry.value {
                Some(v) => Some(v.as_str()),
                None => None,
            };
        }
        i = i + 1;
    }
    None
}

/// Appends the header `name` of a message to `out`, if the message has it.
pub fn pass_header(out: &mut Vec<Field>, entries: &Vec<HeaderEntry>, name: &str)
    ensures
        fields_view(final(out)@) == fields_view(old(out)@) + passed_header(
            entries_view(entries@),
            name@,
        ),
{
    match find_header(entries, name) {
        Some(value) => {
            out.push(Field { name: String::from_str(name), value: String::from_str(value) });
            assert(fields_view(out@) =~= fields_view(old(out)@) + seq![(name@, value@)]);
        },
        None => {
            assert(fields_view(out@) =~= fields_view(old(out)@) + Seq::<
                (Seq<char>, Seq<char>),
            >::empty());
        },
    }
}

/// Appends to `out` the request headers that are forwarded upstream.
pub fn pass_inbound_headers(out: &mut Vec<Field>, entries: &Vec<HeaderEntry>)
    ensures
        fields_view(final(out)@) == fields_view(old(out)@) + passed_headers(
            entries_view(entries@),
            inbound_allowed(),
        ),
{
    let ghost all = entries_view(entries@);
    let ghost allowed = inbound_allowed();
    pass_header(out, entries, "content-type");
    pass_header(out, entries, "range");
    pass_header(out, entries, "accept");
    proof {
        let a1 = allowed.drop_last();
        let a2 = a1.drop_last();
        let a3 = a2.drop_last();
        assert(a3.len() == 0);
        assert(passed_headers(all, a3) =~= Seq::<(Seq<char>, Seq<char>)>::empty());
        assert(a2.last() == "content-type"@);
        assert(passed_headers(all, a2) =~= passed_header(all, "content-type"@));
        assert(passed_headers(all, a1) =~= passed_headers(all, a2) + passed_header(all, "range"@));
        assert(passed_headers(all, allowed) =~= passed_headers(all, a1) + passed_header(
            all,
            "accept"@,
        ));
        assert(fields_view(out@) =~= fields_view(old(out)@) + passed_headers(all, allowed));
    }
}

/// Selects from the headers of an upstream response those that are relayed
/// to the client.
pub fn pass_outbound_headers(entries: &Vec<HeaderEntry>) -> (out: Vec<Field>)
    ensures
        fields_view(out@) == passed_headers(entries_view(entries@), outbound_allowed()),
{
    let ghost all = entries_view(entries@);
    let ghost allowed = outbound_allowed();
    let mut out: Vec<Field> = Vec::new();
    assert(fields_view(out@) =~= Seq::<(Seq<char>, Seq<char>)>::empty());
    pass_header(&mut out, entries, "content-type");
    pass_header(&mut out, entries, "content-length");
    pass_header(&mut out, entries, "content-range");
    pass_header(&mut out, entries, "accept-ranges");
    proof {
        let a1 = allowed.drop_last();
        let a2 = a1.drop_last();
        let a3 = a2.drop_last();
        let a4 = a3.drop_last();
        assert(a4.len() == 0);
        assert(passed_headers(all, a4) =~= Seq::<(Seq<char>, Seq<char>)>::empty());
        assert(a3.last() == "content-type"@);
        assert(passed_headers(all, a3) =~= passed_header(all, "content-type"@));
        assert(passed_headers(all, a2) =~= passed_headers(all, a3) + passed_header(
            all,
            "content-length"@,
        ));
        assert(passed_headers(all, a1) =~= passed_headers(all, a2) + passed_header(
            all,
            "content-range"@,
        ));
        assert(passed_headers(all, allowed) =~= passed_headers(all, a1) + passed_header(
            all,
            "accept-ranges"@,
        ));
        assert(fields_view(out@) =~= passed_headers(all, allowed));
    }
    out
}

} // verus!
