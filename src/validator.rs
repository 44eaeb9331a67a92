use vstd::prelude::*;

use crate::amount::{group_total, sum_amounts, total, well_formed, UDT_LEN};
use crate::auth::{check_owner_mode, owner_mode};
use crate::error::Error;

verus! {

/// The cells of a transaction that one validation reads, as the host
/// enumerated them.
pub struct CellGroup {
    /// Lock fingerprints of all the transaction's inputs, in order.
    pub input_locks: Vec<[u8; 32]>,
    /// Data of the inputs whose type is this validator's own.
    pub group_inputs: Vec<Vec<u8>>,
    /// Data of the outputs whose type is this validator's own.
    pub group_outputs: Vec<Vec<u8>>,
}

/// A `CellGroup` as byte strings.
pub ghost struct CellGroupView {
    pub input_locks: Seq<Seq<u8>>,
    pub group_inputs: Seq<Seq<u8>>,
    pub group_outputs: Seq<Seq<u8>>,
}

impl View for CellGroup {
    type V = CellGroupView;

    open spec fn view(&self) -> CellGroupView {
        CellGroupView {
            input_locks: self.input_locks.deep_view(),
            group_inputs: self.group_inputs.deep_view(),
            group_outputs: self.group_outputs.deep_view(),
        }
    }
}

/// The outcome of validating `cells` under the configured argument `args`.
///
/// In owner mode the transition is accepted outright. Otherwise the inputs
/// are aggregated first, and their failure is reported without looking at
/// the outputs; then the outputs; and the transition is accepted exactly
/// when the inputs' total is at least the outputs'.
pub open spec fn validation_result(args: Seq<u8>, cells: CellGroupView) -> Result<(), Error> {
    if owner_mode(args, cells.input_locks) {
        Ok(())
    } else {
        match group_total(cells.group_inputs) {
            Err(e) => Err(e),
            Ok(inputs) => match group_total(cells.group_outputs) {
                Err(e) => Err(e),
                Ok(outputs) => if inputs < outputs {
                    Err(Error::Amount)
                } else {
                    Ok(())
                },
            },
        }
    }
}

/// Decides whether the transition that `cells` describes is accepted.
pub fn validate(args: &[u8], cells: &CellGroup) -> (r: Result<(), Error>)
    ensures
        r == validation_result(args@, cells@),
{
    if check_owner_mode(args, cells.input_locks.as_slice()) {
        return Ok(());
    }
    let inputs_amount = match sum_amounts(cells.group_inputs.as_slice()) {
        Ok(v) => v,
        Err(e) => return Err(e),
    };
    let outputs_amount = match sum_amounts(cells.group_outputs.as_slice()) {
        Ok(v) => v,
        Err(e) => return Err(e),
    };
    if inputs_amount < outputs_amount {
        return Err(Error::Amount);
    }
    Ok(())
}

/// Outside owner mode, an accepted transition has well-formed groups whose
/// input total covers the output total, and a refusal for the amount means
/// the outputs exceed the inputs. When both groups decode to totals that fit,
/// the transition is accepted if and only if the inputs cover the outputs.
pub proof fn lemma_conservation(args: Seq<u8>, cells: CellGroupView)
    requires
        !owner_mode(args, cells.input_locks),
    ensures
        validation_result(args, cells) is Ok ==> {
            &&& well_formed(cells.group_inputs)
            &&& well_formed(cells.group_outputs)
            &&& total(cells.group_inputs) >= total(cells.group_outputs)
        },
        validation_result(args, cells) == Err::<(), Error>(Error::Amount) ==> total(
            cells.group_inputs,
        ) < total(cells.group_outputs),
        group_total(cells.group_inputs) is Ok && group_total(cells.group_outputs) is Ok ==> {
            &&& (validation_result(args, cells) is Ok <==> total(cells.group_inputs) >= total(
                cells.group_outputs,
            ))
            &&& (validation_result(args, cells) == Err::<(), Error>(Error::Amount) <==> total(
                cells.group_inputs,
            ) < total(cells.group_outputs))
        },
{
}

/// In owner mode every transition is accepted, whatever the amounts and
/// whether or not the groups decode.
pub proof fn lemma_owner_mode_accepts(args: Seq<u8>, cells: CellGroupView)
    requires
        owner_mode(args, cells.input_locks),
    ensures
        validation_result(args, cells) == Ok::<(), Error>(()),
{
}

/// Outside owner mode, an input cell whose data is not exactly `UDT_LEN` bytes
/// long gets the transition refused with an encoding failure, and so does
/// such an output cell once the inputs have been summed.
pub proof fn lemma_malformed_cell_refused(args: Seq<u8>, cells: CellGroupView, i: int)
    requires
        !owner_mode(args, cells.input_locks),
    ensures
        0 <= i < cells.group_inputs.len() && cells.group_inputs[i].len() != UDT_LEN
            ==> validation_result(args, cells) == Err::<(), Error>(Error::Encoding),
        group_total(cells.group_inputs) is Ok && 0 <= i < cells.group_outputs.len()
            && cells.group_outputs[i].len() != UDT_LEN ==> validation_result(args, cells) == Err::<
            (),
            Error,
        >(Error::Encoding),
{
}

/// Validation depends on the argument and the cells alone: the same pair
/// always gives the same outcome.
pub proof fn lemma_validation_deterministic(
    args1: Seq<u8>,
    cells1: CellGroupView,
    args2: Seq<u8>,
    cells2: CellGroupView,
)
    requires
        args1 == args2,
        cells1 == cells2,
    ensures
        validation_result(args1, cells1) == validation_result(args2, cells2),
{
}

} // verus!
