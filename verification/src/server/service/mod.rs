//! The service of an authenticated client connection.
use vstd::prelude::*;

pub mod backtest;
pub mod instructions;

use crate::server::message::report::{Report, ReportCode, ReportData, ReportDataView, ReportView, report_of};
use crate::server::message::Instruction;

verus! {

/// A frame read from the client's socket, as far as the service reads it.
#[derive(Debug, PartialEq, Eq)]
pub enum Inbound {
    /// A close frame.
    Close,
    /// A text frame: the instruction it parsed as, or the description of the
    /// parse error.
    Text(Result<Instruction, String>),
    /// Any other frame (binary, ping, pong).
    Other,
    /// Reading the socket failed.
    Failed,
    /// The socket ended.
    Ended,
}

/// What the service does with a frame.
#[derive(Debug, Clone, PartialEq, Eq)]
pub enum ServeStep {
    /// Close the socket and stop serving.
    CloseAndStop,
    /// Stop serving.
    Stop,
    /// Handle the instruction (see `instructions::handle_instruction`).
    Handle(Instruction),
    /// Answer with a report and go on.
    Reply(Report<ReportData>),
    /// Go on.
    Continue,
}

/// The mathematical value of a [`ServeStep`].
pub enum ServeStepView {
    CloseAndStop,
    Stop,
    Handle(Instruction),
    Reply(ReportView<ReportDataView>),
    Continue,
}

impl View for ServeStep {
    type V = ServeStepView;

    open spec fn view(&self) -> ServeStepView {
        match self {
            ServeStep::CloseAndStop => ServeStepView::CloseAndStop,
            ServeStep::Stop => ServeStepView::Stop,
            ServeStep::Handle(i) => ServeStepView::Handle(*i),
            ServeStep::Reply(r) => ServeStepView::Reply(r@),
            ServeStep::Continue => ServeStepView::Continue,
        }
    }
}

/// What the service does with a frame: a close frame closes the socket, a
/// failed or ended socket stops the service, an instruction is handled, a
/// text that does not parse is answered "failed to parse instruction" with
/// the error, and other frames are skipped.
pub open spec fn serve_decision(frame: Inbound) -> ServeStepView {
    match frame {
        Inbound::Close => ServeStepView::CloseAndStop,
        Inbound::Text(Ok(i)) => ServeStepView::Handle(i),
        Inbound::Text(Err(e)) => ServeStepView::Reply(
            report_of(ReportCode::GeneralError, "failed to parse instruction"@, ReportDataView::Text(e@)),
        ),
        Inbound::Other => ServeStepView::Continue,
        Inbound::Failed => ServeStepView::Stop,
        Inbound::Ended => ServeStepView::Stop,
    }
}

/// Decides what to do with a frame from the client, as [`serve_decision`]
/// states.
pub fn serve_step(frame: Inbound) -> (res: ServeStep)
    ensures
        res@ == serve_decision(frame),
{
    match frame {
        Inbound::Close => ServeStep::CloseAndStop,
        Inbound::Text(Ok(i)) => ServeStep::Handle(i),
        Inbound::Text(Err(e)) => ServeStep::Reply(Report {
            code: ReportCode::GeneralError,
            message: String::from_str("failed to parse instruction"),
            data: ReportData::Text(e),
        }),
        Inbound::Other => ServeStep::Continue,
        Inbound::Failed => ServeStep::Stop,
        Inbound::Ended => ServeStep::Stop,
    }
}

} // verus!
