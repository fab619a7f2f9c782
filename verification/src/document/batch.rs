//! The result of a batch: one outcome for each element of the request.
//!
//! A batch is sent in one call, and the response holds one element for each
//! element of the request, in the order of the request. Each element succeeds
//! or fails by itself. The call as a whole fails only where the response
//! holds another number of elements than the request, or where an element
//! has neither the shape of a failure nor that of a success.

use crate::document::response::{
    decode_document_element, decode_header_element, document_outcome_view, header_outcome_view,
    spec_document_element, spec_header_element, ElementFields,
};
use crate::document::types::{Document, DocumentHeader, DocumentHeaderView};
use crate::error::{ElementError, ElementErrorView, ProtocolViolation, Violation};
use vstd::prelude::*;

verus! {

/// Whether `outcomes` holds, position by position, what the elements of
/// `decoded` say, all of which have a proper shape.
pub open spec fn is_outcome_of<V>(
    outcomes: Seq<Result<V, ElementErrorView>>,
    decoded: Seq<Result<Result<V, ElementErrorView>, Violation>>,
) -> bool {
    &&& outcomes.len() == decoded.len()
    &&& forall|i: int| 0 <= i < decoded.len() ==> decoded[i] == Ok::<_, Violation>(#[trigger] outcomes[i])
}

/// Whether the element at `index` is the first of `decoded` that has no
/// proper shape, and `violation` is what is wrong with it.
pub open spec fn is_first_violation<V>(
    decoded: Seq<Result<Result<V, ElementErrorView>, Violation>>,
    index: int,
    violation: Violation,
) -> bool {
    &&& 0 <= index < decoded.len()
    &&& decoded[index] == Err::<Result<V, ElementErrorView>, _>(violation)
    &&& forall|i: int| 0 <= i < index ==> (#[trigger] decoded[i]) is Ok
}

/// Whether `result` is the result of a batch of `expected` elements whose
/// response held the elements `decoded`.
pub open spec fn is_aggregate_of<V>(
    result: Result<Seq<Result<V, ElementErrorView>>, ProtocolViolation>,
    expected: usize,
    decoded: Seq<Result<Result<V, ElementErrorView>, Violation>>,
) -> bool {
    match result {
        Ok(outcomes) => decoded.len() == expected && is_outcome_of(outcomes, decoded),
        Err(ProtocolViolation::LengthMismatch { expected: wanted, actual }) => {
            &&& wanted == expected
            &&& actual == decoded.len()
            &&& decoded.len() != expected
        },
        Err(ProtocolViolation::Element { index, violation }) => {
            &&& decoded.len() == expected
            &&& is_first_violation(decoded, index as int, violation)
        },
        Err(_) => false,
    }
}

/// The elements of a response, each decoded by itself, where a success is a
/// header.
pub open spec fn decoded_headers<T>(elements: Seq<ElementFields<T>>) -> Seq<
    Result<Result<DocumentHeaderView, ElementErrorView>, Violation>,
> {
    elements.map_values(|fields: ElementFields<T>| spec_header_element(fields))
}

/// The elements of a response, each decoded by itself, where a success is a
/// document.
pub open spec fn decoded_documents<T>(elements: Seq<ElementFields<T>>) -> Seq<
    Result<Result<(DocumentHeaderView, T), ElementErrorView>, Violation>,
> {
    elements.map_values(|fields: ElementFields<T>| spec_document_element(fields))
}

/// The views of the outcomes of a batch where a success is a header.
pub open spec fn header_outcomes_view(
    result: Result<Vec<Result<DocumentHeader, ElementError>>, ProtocolViolation>,
) -> Result<Seq<Result<DocumentHeaderView, ElementErrorView>>, ProtocolViolation> {
    match result {
        Ok(outcomes) => Ok(
            outcomes@.map_values(
                |outcome: Result<DocumentHeader, ElementError>| header_outcome_view(outcome),
            ),
        ),
        Err(violation) => Err(violation),
    }
}

/// The views of the outcomes of a batch where a success is a document.
pub open spec fn document_outcomes_view<T>(
    result: Result<Vec<Result<Document<T>, ElementError>>, ProtocolViolation>,
) -> Result<Seq<Result<(DocumentHeaderView, T), ElementErrorView>>, ProtocolViolation> {
    match result {
        Ok(outcomes) => Ok(
            outcomes@.map_values(
                |outcome: Result<Document<T>, ElementError>| document_outcome_view(outcome),
            ),
        ),
        Err(violation) => Err(violation),
    }
}

/// Turns the response to a batch of `expected` inserts that did not ask for
/// the content into one outcome for each element, in the order of the
/// request. A failed element becomes a failed outcome and leaves the others
/// as they are.
pub fn aggregate_headers<T>(expected: usize, elements: Vec<ElementFields<T>>) -> (result: Result<
    Vec<Result<DocumentHeader, ElementError>>,
    ProtocolViolation,
>)
    ensures
        is_aggregate_of(header_outcomes_view(result), expected, decoded_headers(elements@)),
        result matches Ok(outcomes) ==> outcomes@.len() == elements@.len() && forall|i: int|
            0 <= i < outcomes@.len() ==> spec_header_element(elements@[i]) == Ok::<_, Violation>(
                header_outcome_view(#[trigger] outcomes@[i]),
            ),
{
    let actual = elements.len();
    if actual != expected {
        return Err(ProtocolViolation::LengthMismatch { expected, actual });
    }
    let ghost decoded = decoded_headers(elements@);
    let mut outcomes: Vec<Result<DocumentHeader, ElementError>> = Vec::with_capacity(actual);
    for fields in iter: elements.into_iter()
        invariant
            iter.seq() == elements@,
            elements@.len() == expected,
            decoded == decoded_headers(elements@),
            outcomes.len() == iter.index(),
            forall|i: int|
                0 <= i < outcomes.len() ==> decoded[i] == Ok::<_, Violation>(
                    header_outcome_view(#[trigger] outcomes[i]),
                ),
    {
        let index = outcomes.len();
        match decode_header_element(fields) {
            Ok(outcome) => {
                outcomes.push(outcome);
            },
            Err(violation) => {
                proof {
                    assert(decoded[index as int] == spec_header_element(fields));
                    assert forall|i: int| 0 <= i < index implies (#[trigger] decoded[i]) is Ok by {
                        assert(decoded[i] == Ok::<_, Violation>(header_outcome_view(outcomes[i])));
                    }
                }
                return Err(ProtocolViolation::Element { index, violation });
            },
        }
    }
    Ok(outcomes)
}

/// Turns the response to a batch of `expected` inserts that asked for the
/// content into one outcome for each element, in the order of the request. A
/// failed element becomes a failed outcome and leaves the others as they
/// are.
pub fn aggregate_documents<T>(expected: usize, elements: Vec<ElementFields<T>>) -> (result:
    Result<Vec<Result<Document<T>, ElementError>>, ProtocolViolation>)
    ensures
        is_aggregate_of(
            document_outcomes_view(result),
            expected,
            decoded_documents(elements@),
        ),
        result matches Ok(outcomes) ==> outcomes@.len() == elements@.len() && forall|i: int|
            0 <= i < outcomes@.len() ==> spec_document_element(elements@[i]) == Ok::<_, Violation>(
                document_outcome_view(#[trigger] outcomes@[i]),
            ),
{
    let actual = elements.len();
    if actual != expected {
        return Err(ProtocolViolation::LengthMismatch { expected, actual });
    }
    let ghost decoded = decoded_documents(elements@);
    let mut outcomes: Vec<Result<Document<T>, ElementError>> = Vec::with_capacity(actual);
    for fields in iter: elements.into_iter()
        invariant
            iter.seq() == elements@,
            elements@.len() == expected,
            decoded == decoded_documents(elements@),
            outcomes.len() == iter.index(),
            forall|i: int|
                0 <= i < outcomes.len() ==> decoded[i] == Ok::<_, Violation>(
                    document_outcome_view(#[trigger] outcomes[i]),
                ),
    {
        let index = outcomes.len();
        match decode_document_element(fields) {
            Ok(outcome) => {
                outcomes.push(outcome);
            },
            Err(violation) => {
                proof {
                    assert(decoded[index as int] == spec_document_element(fields));
                    assert forall|i: int| 0 <= i < index implies (#[trigger] decoded[i]) is Ok by {
                        assert(decoded[i] == Ok::<_, Violation>(
                            document_outcome_view(outcomes[i]),
                        ));
                    }
                }
                return Err(ProtocolViolation::Element { index, violation });
            },
        }
    }
    Ok(outcomes)
}

/// A batch yields outcomes exactly where the response holds as many elements
/// as the request and each of them has a proper shape. There are then as
/// many outcomes as elements.
pub proof fn lemma_aggregate_succeeds_iff_well_shaped<V>(
    result: Result<Seq<Result<V, ElementErrorView>>, ProtocolViolation>,
    expected: usize,
    decoded: Seq<Result<Result<V, ElementErrorView>, Violation>>,
)
    requires
        is_aggregate_of(result, expected, decoded),
    ensures
        result is Ok <==> decoded.len() == expected && forall|i: int|
            0 <= i < decoded.len() ==> (#[trigger] decoded[i]) is Ok,
        result is Ok ==> result.unwrap().len() == expected,
{
    match result {
        Ok(outcomes) => {
            assert forall|i: int| 0 <= i < decoded.len() implies (#[trigger] decoded[i]) is Ok by {
                assert(decoded[i] == Ok::<_, Violation>(outcomes[i]));
            }
        },
        Err(ProtocolViolation::Element { index, violation }) => {
            assert(decoded[index as int] is Err);
        },
        Err(_) => {},
    }
}

/// The outcome at a position is what the element at that position says,
/// whatever the other elements say: where two responses agree in one
/// element, their results agree in the outcome of that element.
pub proof fn lemma_outcomes_are_independent<V>(
    expected: usize,
    first: Seq<Result<Result<V, ElementErrorView>, Violation>>,
    first_outcomes: Seq<Result<V, ElementErrorView>>,
    second: Seq<Result<Result<V, ElementErrorView>, Violation>>,
    second_outcomes: Seq<Result<V, ElementErrorView>>,
)
    requires
        is_aggregate_of(Ok(first_outcomes), expected, first),
        is_aggregate_of(Ok(second_outcomes), expected, second),
    ensures
        forall|i: int|
            0 <= i < expected && first[i] == second[i] ==> #[trigger] first_outcomes[i]
                == second_outcomes[i],
{
    assert forall|i: int| 0 <= i < expected && first[i] == second[i] implies #[trigger] first_outcomes[i]
        == second_outcomes[i] by {
        assert(first[i] == Ok::<_, Violation>(first_outcomes[i]));
        assert(second[i] == Ok::<_, Violation>(second_outcomes[i]));
    }
}

/// A failed element does not make the batch fail: where every element of a
/// response is a failure or a success of proper shape, and the response
/// holds as many elements as the request, the result holds a failed outcome
/// at the position of each failed element and a success at each other.
pub proof fn lemma_failures_stay_in_place<V>(
    expected: usize,
    decoded: Seq<Result<Result<V, ElementErrorView>, Violation>>,
    outcomes: Seq<Result<V, ElementErrorView>>,
)
    requires
        is_aggregate_of(Ok(outcomes), expected, decoded),
    ensures
        forall|i: int|
            0 <= i < expected ==> ((#[trigger] outcomes[i]) is Err <==> decoded[i] matches Ok(
                Err(_),
            )),
{
    assert forall|i: int| 0 <= i < expected implies ((#[trigger] outcomes[i]) is Err
        <==> decoded[i] matches Ok(Err(_))) by {
        assert(decoded[i] == Ok::<_, Violation>(outcomes[i]));
    }
}

} // verus!
