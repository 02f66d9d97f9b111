//! Named text values (environment variables, cookies, header fields) and the
//! lookup of the first value that goes by a name.

use vstd::prelude::*;
use crate::text::str_equal;

verus! {

/// A named text value.
#[derive(Debug)]
pub struct Field {
    pub name: String,
    pub value: String,
}

impl View for Field {
    type V = (Seq<char>, Seq<char>);

    open spec fn view(&self) -> (Seq<char>, Seq<char>) {
        (self.name@, self.value@)
    }
}

/// The views of a list of fields, in order.
pub open spec fn fields_view(fields: Seq<Field>) -> Seq<(Seq<char>, Seq<char>)> {
    fields.map_values(|f: Field| f@)
}

/// The view of an optional text.
pub open spec fn opt_text(text: Option<&str>) -> Option<Seq<char>> {
    match text {
        Some(t) => Some(t@),
        None => None,
    }
}

/// The value of the first field named exactly `name`.
pub open spec fn first_value(fields: Seq<(Seq<char>, Seq<char>)>, name: Seq<char>) -> Option<
    Seq<char>,
>
    decreases fields.len(),
{
    if fields.len() == 0 {
        None
    } else if fields[0].0 == name {
        Some(fields[0].1)
    } else {
        first_value(fields.drop_first(), name)
    }
}

/// A name that no field bears has no value, and a name that some field bears
/// has the value of the earliest such field.
pub proof fn lemma_first_value(fields: Seq<(Seq<char>, Seq<char>)>, name: Seq<char>)
    ensures
        first_value(fields, name) is None <==> forall|i: int|
            0 <= i < fields.len() ==> (#[trigger] fields[i]).0 != name,
        first_value(fields, name) matches Some(v) ==> exists|i: int|
            0 <= i < fields.len() && (#[trigger] fields[i]) == (name, v) && forall|j: int|
                0 <= j < i ==> (#[trigger] fields[j]).0 != name,
    decreases fields.len(),
{
    if fields.len() > 0 && fields[0].0 != name {
        let rest = fields.drop_first();
        lemma_first_value(rest, name);
        if first_value(rest, name) is None {
            assert forall|i: int| 0 <= i < fields.len() implies (#[trigger] fields[i]).0
                != name by {
                if i > 0 {
                    assert(rest[i - 1] == fields[i]);
                }
            }
        } else {
            let v = first_value(rest, name)->0;
            let k = choose|i: int|
                0 <= i < rest.len() && (#[trigger] rest[i]) == (name, v) && forall|j: int|
                    0 <= j < i ==> (#[trigger] rest[j]).0 != name;
            assert forall|j: int| 0 <= j < k + 1 implies (#[trigger] fields[j]).0 != name by {
                if j > 0 {
                    assert(rest[j - 1] == fields[j]);
                }
            }
        }
    }
}

/// Finds the value of the first field named exactly `name`.
pub fn lookup<'a>(fields: &'a Vec<Field>, name: &str) -> (out: Option<&'a str>)
    ensures
        opt_text(out) == first_value(fields_view(fields@), name@),
{
    let ghost all = fields_view(fields@);
    let mut i: usize = 0;
    assert(all.skip(0) == all);
    while i < fields.len()
        invariant
            i <= fields.len(),
            all == fields_view(fields@),
            first_value(all, name@) == first_value(all.skip(i as int), name@),
        decreases fields.len() - i,
    {
        let field = &fields[i];
        proof {
            let rest = all.skip(i as int);
            assert(rest.drop_first() == all.skip(i + 1));
        }
        if str_equal(field.name.as_str(), name) {
            return Some(field.value.as_str());
        }
        i = i + 1;
    }
    None
}

} // verus!
