//! Query parameters of a request, and the query text they are sent as.
use vstd::prelude::*;

use crate::form::{encode_query, form_query, lemma_form_query_empty_iff_no_pairs};

verus! {

/// A request whose fields are sent as query parameters.
pub trait QueryParams {
    /// The parameters, as `(name, value)` texts in the order they are sent.
    spec fn query(&self) -> Seq<(Seq<char>, Seq<char>)>;

    /// The parameters of the request.
    fn query_pairs(&self) -> (r: Vec<(String, String)>)
        ensures
            r.deep_view() == self.query(),
    ;
}

/// No parameters at all, for the calls that take none.
impl QueryParams for () {
    open spec fn query(&self) -> Seq<(Seq<char>, Seq<char>)> {
        Seq::empty()
    }

    fn query_pairs(&self) -> (r: Vec<(String, String)>) {
        Vec::new()
    }
}

/// One parameter.
pub open spec fn param(name: Seq<char>, value: Seq<char>) -> Seq<(Seq<char>, Seq<char>)> {
    seq![(name, value)]
}

/// One parameter when it is present, none when it is not.
pub open spec fn param_if(present: bool, name: Seq<char>, value: Seq<char>) -> Seq<
    (Seq<char>, Seq<char>),
> {
    if present {
        param(name, value)
    } else {
        Seq::empty()
    }
}

/// A field of a request as a parameter: whether it is present, its name,
/// and the text of its value.
pub type FieldParam = (bool, Seq<char>, Seq<char>);

/// `1` for a present field, `0` for an absent one.
pub open spec fn count_if(present: bool) -> int {
    if present {
        1
    } else {
        0
    }
}

/// The parameters that the present fields make, in the fields' order.
pub open spec fn present_params(fields: Seq<FieldParam>) -> Seq<(Seq<char>, Seq<char>)>
    decreases fields.len(),
{
    if fields.len() == 0 {
        Seq::empty()
    } else {
        present_params(fields.drop_last()) + param_if(
            fields.last().0,
            fields.last().1,
            fields.last().2,
        )
    }
}

/// The number of present fields.
pub open spec fn present_count(fields: Seq<FieldParam>) -> int
    decreases fields.len(),
{
    if fields.len() == 0 {
        0
    } else {
        present_count(fields.drop_last()) + count_if(fields.last().0)
    }
}

/// Whether some present field is named `name`.
pub open spec fn named_present(fields: Seq<FieldParam>, name: Seq<char>) -> bool
    decreases fields.len(),
{
    if fields.len() == 0 {
        false
    } else {
        named_present(fields.drop_last(), name) || (fields.last().0 && fields.last().1 == name)
    }
}

/// No parameter is named `name`.
pub open spec fn lacks_name(params: Seq<(Seq<char>, Seq<char>)>, name: Seq<char>) -> bool {
    forall|i: int| 0 <= i < params.len() ==> #[trigger] params[i].0 != name
}

/// Each present field makes exactly one parameter.
pub proof fn lemma_present_count(fields: Seq<FieldParam>)
    ensures
        present_params(fields).len() == present_count(fields),
    decreases fields.len(),
{
    if fields.len() > 0 {
        lemma_present_count(fields.drop_last());
    }
}

/// A present field's parameter, with its name and value, is among the parameters.
pub proof fn lemma_present_field_sent(fields: Seq<FieldParam>, i: int)
    requires
        0 <= i < fields.len(),
        fields[i].0,
    ensures
        present_params(fields).contains((fields[i].1, fields[i].2)),
    decreases fields.len(),
{
    let init = fields.drop_last();
    let sent = present_params(fields);
    if i == fields.len() - 1 {
        let k = present_params(init).len() as int;
        assert(sent[k] == (fields[i].1, fields[i].2));
    } else {
        lemma_present_field_sent(init, i);
        assert(init[i] == fields[i]);
        let k = choose|k: int|
            0 <= k < present_params(init).len() && present_params(init)[k] == (
                fields[i].1,
                fields[i].2,
            );
        assert(sent[k] == present_params(init)[k]);
    }
}

/// A name that no present field has is not among the parameters.
pub proof fn lemma_absent_name_not_sent(fields: Seq<FieldParam>, name: Seq<char>)
    requires
        !named_present(fields, name),
    ensures
        lacks_name(present_params(fields), name),
    decreases fields.len(),
{
    if fields.len() > 0 {
        let init = fields.drop_last();
        lemma_absent_name_not_sent(init, name);
        let sent = present_params(fields);
        assert forall|i: int| 0 <= i < sent.len() implies #[trigger] sent[i].0 != name by {
            if i < present_params(init).len() {
                assert(sent[i] == present_params(init)[i]);
            }
        }
    }
}

/// The query text of a request: its parameters, form-encoded and joined by `&`.
pub open spec fn query_text<Q: QueryParams>(req: &Q) -> Seq<char> {
    form_query(req.query())
}

/// Appends one parameter.
pub(crate) fn push_param(params: &mut Vec<(String, String)>, name: &str, value: String)
    ensures
        final(params).deep_view() == old(params).deep_view() + param(name@, value@),
{
    params.push((name.to_owned(), value));
    assert(final(params).deep_view() =~= old(params).deep_view() + param(name@, value@));
}

/// The query text that a request is sent with.
pub fn query_string<Q: QueryParams>(req: &Q) -> (r: String)
    ensures
        r@ == query_text(req),
{
    let pairs = req.query_pairs();
    encode_query(&pairs)
}

/// A request is sent without a query exactly when it has no parameter:
/// every optional parameter that is left out adds nothing to the text,
/// and any parameter that is present makes it non-empty.
pub proof fn law_empty_query_iff_no_params<Q: QueryParams>(req: &Q)
    ensures
        (query_text(req).len() == 0) <==> (req.query().len() == 0),
{
    lemma_form_query_empty_iff_no_pairs(req.query());
}

} // verus!
