use vstd::prelude::*;

verus! {

/// What a producer puts into a completion cell.
#[derive(Debug, PartialEq, Eq)]
pub enum TaskEvent<OkResult, ErrorResult> {
    Success(OkResult),
    Error(ErrorResult),
}

/// Why a waiter got no success out of a completion cell.
#[derive(Debug, PartialEq, Eq)]
pub enum TaskError<ErrorResult> {
    /// The producer set this error.
    Error(ErrorResult),
    /// The cell itself failed the waiter: the producer went away without a
    /// result, or the outcome had been handed out before.
    FatalError(String),
}

/// The life of a completion cell.
#[derive(Debug)]
pub enum CompletionState<OkResult, ErrorResult> {
    /// No result yet, and the producer is still there.
    Pending,
    /// The producer set a result that the waiter has not taken yet.
    Completed(TaskEvent<OkResult, ErrorResult>),
    /// The producer went away without setting a result.
    Abandoned,
    /// The waiter has taken the outcome.
    Received,
}

/// A single-assignment, single-consumer result cell. A producer sets one
/// result, once; a waiter takes the outcome, once.
#[derive(Debug)]
pub struct TaskCompletion<OkResult, ErrorResult> {
    state: CompletionState<OkResult, ErrorResult>,
}

/// Text of the error that a second `set_ok` gets.
pub open spec fn second_ok_message() -> Seq<char> {
    "You are trying to set OK as a result for a second time"@
}

/// Text of the error that a second `set_error` gets.
pub open spec fn second_error_message() -> Seq<char> {
    "You are trying to set error as a result for a second time"@
}

/// Text of the failure that a waiter gets when the producer went away.
pub open spec fn abandoned_message() -> Seq<char> {
    "Task completion was dropped without a result"@
}

/// Text of the failure that a waiter gets when it asks again.
pub open spec fn second_receive_message() -> Seq<char> {
    "Task result can not be received for a second time"@
}

/// What the waiter is told for an event that the producer set.
pub open spec fn outcome_of<OkResult, ErrorResult>(
    event: TaskEvent<OkResult, ErrorResult>,
) -> Result<OkResult, TaskError<ErrorResult>> {
    match event {
        TaskEvent::Success(ok) => Ok(ok),
        TaskEvent::Error(err) => Err(TaskError::Error(err)),
    }
}

impl<OkResult, ErrorResult> CompletionState<OkResult, ErrorResult> {
    /// Whether a producer may still set a result.
    pub open spec fn accepts_result(self) -> bool {
        self is Pending
    }

    /// The state after a producer offers `event`: only a pending cell takes it.
    pub open spec fn offer(self, event: TaskEvent<OkResult, ErrorResult>) -> Self {
        if self is Pending {
            CompletionState::Completed(event)
        } else {
            self
        }
    }

    /// The state after the producer goes away.
    pub open spec fn abandon(self) -> Self {
        if self is Pending {
            CompletionState::Abandoned
        } else {
            self
        }
    }

    /// Whether the waiter has something to take.
    pub open spec fn is_resolved(self) -> bool {
        !(self is Pending)
    }

    /// The state after the waiter asks for the outcome.
    pub open spec fn after_receive(self) -> Self {
        if self is Pending {
            self
        } else {
            CompletionState::Received
        }
    }
}

impl<OkResult, ErrorResult> View for TaskCompletion<OkResult, ErrorResult> {
    type V = CompletionState<OkResult, ErrorResult>;

    closed spec fn view(&self) -> CompletionState<OkResult, ErrorResult> {
        self.state
    }
}

impl<OkResult, ErrorResult> TaskCompletion<OkResult, ErrorResult> {
    /// An unset cell.
    pub fn new() -> (cell: Self)
        ensures
            cell@ is Pending,
    {
        Self { state: CompletionState::Pending }
    }

    /// Whether a result may still be set.
    pub fn is_pending(&self) -> (pending: bool)
        ensures
            pending == (self@ is Pending),
    {
        match &self.state {
            CompletionState::Pending => true,
            _ => false,
        }
    }

    /// Sets the success result. Only the first result that is set on a cell is
    /// kept: any later call fails and leaves the cell as it was.
    pub fn set_ok(&mut self, result: OkResult) -> (done: Result<(), String>)
        ensures
            final(self)@ == old(self)@.offer(TaskEvent::Success(result)),
            old(self)@.accepts_result() <==> done is Ok,
            done matches Err(message) ==> message@ == second_ok_message(),
    {
        if self.is_pending() {
            self.state = CompletionState::Completed(TaskEvent::Success(result));
            Ok(())
        } else {
            Err("You are trying to set OK as a result for a second time".to_owned())
        }
    }

    /// Sets the error result. Only the first result that is set on a cell is
    /// kept: any later call fails and leaves the cell as it was.
    pub fn set_error(&mut self, result: ErrorResult) -> (done: Result<(), String>)
        ensures
            final(self)@ == old(self)@.offer(TaskEvent::Error(result)),
            old(self)@.accepts_result() <==> done is Ok,
            done matches Err(message) ==> message@ == second_error_message(),
    {
        if self.is_pending() {
            self.state = CompletionState::Completed(TaskEvent::Error(result));
            Ok(())
        } else {
            Err("You are trying to set error as a result for a second time".to_owned())
        }
    }

    /// Records that the producer went away. A cell without a result becomes
    /// abandoned; a cell with a result keeps it.
    pub fn abandon(&mut self)
        ensures
            final(self)@ == old(self)@.abandon(),
    {
        if self.is_pending() {
            self.state = CompletionState::Abandoned;
        }
    }

    /// Hands the outcome to the waiter, if there is one: `None` while the cell
    /// is pending, so that the waiter goes on waiting. The result that the
    /// producer set is moved out once; an abandoned cell and a second request
    /// give a fatal error.
    pub fn get_result(&mut self) -> (outcome: Option<Result<OkResult, TaskError<ErrorResult>>>)
        ensures
            final(self)@ == old(self)@.after_receive(),
            match old(self)@ {
                CompletionState::Pending => outcome is None,
                CompletionState::Completed(event) => outcome == Some(outcome_of(event)),
                CompletionState::Abandoned => outcome matches Some(Err(TaskError::FatalError(message)))
                    && message@ == abandoned_message(),
                CompletionState::Received => outcome matches Some(
                    Err(TaskError::FatalError(message)),
                ) && message@ == second_receive_message(),
            },
    {
        if self.is_pending() {
            return None;
        }
        let mut taken = CompletionState::Received;
        std::mem::swap(&mut self.state, &mut taken);
        match taken {
            CompletionState::Pending => None,
            CompletionState::Completed(TaskEvent::Success(ok)) => Some(Ok(ok)),
            CompletionState::Completed(TaskEvent::Error(err)) => Some(Err(TaskError::Error(err))),
            CompletionState::Abandoned => Some(
                Err(
                    TaskError::FatalError(
                        "Task completion was dropped without a result".to_owned(),
                    ),
                ),
            ),
            CompletionState::Received => Some(
                Err(
                    TaskError::FatalError(
                        "Task result can not be received for a second time".to_owned(),
                    ),
                ),
            ),
        }
    }
}

/// Of two results offered to a fresh cell, the waiter sees the first: the
/// second offer finds the cell no longer accepting and leaves it unchanged.
pub proof fn lemma_first_result_is_kept<OkResult, ErrorResult>(
    first: TaskEvent<OkResult, ErrorResult>,
    second: TaskEvent<OkResult, ErrorResult>,
)
    ensures
        ({
            let fresh = CompletionState::<OkResult, ErrorResult>::Pending;
            let once = fresh.offer(first);
            let twice = once.offer(second);
            &&& fresh.accepts_result()
            &&& !once.accepts_result()
            &&& twice == once
            &&& twice == CompletionState::Completed(first)
        }),
{
}

/// A cell whose producer goes away before setting a result is resolved and
/// abandoned, and stays so whatever is offered to it afterwards.
pub proof fn lemma_abandoned_cell_is_resolved<OkResult, ErrorResult>(
    late: TaskEvent<OkResult, ErrorResult>,
)
    ensures
        ({
            let fresh = CompletionState::<OkResult, ErrorResult>::Pending;
            let abandoned = fresh.abandon();
            &&& abandoned is Abandoned
            &&& abandoned.is_resolved()
            &&& abandoned.offer(late) == abandoned
        }),
{
}

/// Going away does not take back a result that the producer has set.
pub proof fn lemma_abandon_keeps_result<OkResult, ErrorResult>(
    event: TaskEvent<OkResult, ErrorResult>,
)
    ensures
        CompletionState::<OkResult, ErrorResult>::Pending.offer(event).abandon()
            == CompletionState::Completed(event),
{
}

} // verus!
