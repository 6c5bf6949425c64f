//! What holds of every turn.
//!
//! The statements here are about the machine of [`TurnState`]; they hold of
//! every driver of a turn, because each method of [`crate::turn::Turn`] takes
//! exactly the machine's step and [`crate::agent::run_turn`] ends where the
//! machine ends on the replies that were given.

use crate::chat_completion::{
    ChatCompletionRequestView, ChatCompletionResponseView, ChatMessageView,
};
use crate::errors::OrchestrationErrorView;
use crate::tools::{ToolDefinitionView, ToolError, ToolOutputView};
use crate::turn::{
    attempts_allowed, finished_text, first_owner, is_first_owner, lemma_first_owner_is,
    lemma_run_concat, lemma_run_one, summary_of, tool_note, TurnEvent, TurnPhaseView, TurnState,
    TurnStepView,
};
use vstd::prelude::*;

verus! {

/// A name that some capability claims goes to a capability that stands no
/// later in the list.
pub proof fn lemma_owner_found(claims: Seq<Set<Seq<char>>>, name: Seq<char>, i: int)
    requires
        0 <= i < claims.len(),
        claims[i].contains(name),
    ensures
        first_owner(claims, name) is Some,
        0 <= first_owner(claims, name)->0 <= i,
        is_first_owner(claims, name, first_owner(claims, name)->0),
    decreases i,
{
    if forall|j: int| 0 <= j < i ==> !(#[trigger] claims[j]).contains(name) {
        lemma_first_owner_is(claims, name, i);
    } else {
        let j = choose|j: int| 0 <= j < i && (#[trigger] claims[j]).contains(name);
        lemma_owner_found(claims, name, j);
    }
}

/// Dispatch goes by list order: where two capabilities claim one name, a call
/// of that name never goes to the later one, and it goes to the earlier one
/// where none before it claims the name.
pub proof fn law_first_registered_wins(
    claims: Seq<Set<Seq<char>>>,
    name: Seq<char>,
    earlier: int,
    later: int,
)
    requires
        0 <= earlier < later < claims.len(),
        claims[earlier].contains(name),
        claims[later].contains(name),
    ensures
        first_owner(claims, name) is Some,
        first_owner(claims, name) != Some(later),
        first_owner(claims, name)->0 <= earlier,
        (forall|j: int| 0 <= j < earlier ==> !(#[trigger] claims[j]).contains(name))
            ==> first_owner(claims, name) == Some(earlier),
{
    lemma_owner_found(claims, name, earlier);
    if forall|j: int| 0 <= j < earlier ==> !(#[trigger] claims[j]).contains(name) {
        lemma_first_owner_is(claims, name, earlier);
    }
}

/// A turn begins with the standing instructions and the prompt and nothing
/// else in the conversation, and the first request to the provider carries
/// exactly that conversation, the given definitions and no choice of model.
/// The request is made unless the limit of cycles is zero.
pub proof fn law_first_request(
    max_cycles: nat,
    max_retries: nat,
    retry_delay_ms: nat,
    system_prompt: Seq<char>,
    prompt: Seq<char>,
    definitions: Seq<ToolDefinitionView>,
)
    ensures
        ({
            let first = TurnState::start(
                max_cycles,
                max_retries,
                retry_delay_ms,
                system_prompt,
                prompt,
            );
            let opening = seq![
                ChatMessageView::System(system_prompt),
                ChatMessageView::User(prompt),
            ];
            &&& first.history == opening
            &&& max_cycles >= 1 ==> first.cycle == 1 && first.next(definitions)
                == TurnStepView::Send(
                ChatCompletionRequestView {
                    model: None,
                    messages: opening,
                    tool_definitions: definitions,
                },
            )
            &&& max_cycles == 0 ==> first.outcome() == Some(
                Err::<Seq<char>, OrchestrationErrorView>(
                    OrchestrationErrorView::CycleLimitExceeded(0),
                ),
            )
        }),
{
}

/// An answer of the provider without tool calls ends the turn at once and
/// with success: the answer is appended to the conversation, the outcome is
/// the summary of the conversation, which is that of the last message of the
/// answer where the answer has one, and the turn asks for no tool to be
/// invoked.
pub proof fn law_no_tool_calls_ends_turn(
    state: TurnState,
    claims: Seq<Set<Seq<char>>>,
    response: ChatCompletionResponseView,
    definitions: Seq<ToolDefinitionView>,
)
    requires
        state.phase is AwaitingProvider,
        response.tool_calls.len() == 0,
    ensures
        ({
            let after = state.step(claims, TurnEvent::ProviderReplied(Ok(response)));
            &&& after.outcome() == Some(
                Ok::<Seq<char>, OrchestrationErrorView>(
                    summary_of(state.history + response.messages),
                ),
            )
            &&& after.history == state.history + response.messages
            &&& response.messages.len() > 0 ==> after.outcome() == Some(
                Ok::<Seq<char>, OrchestrationErrorView>(summary_of(response.messages)),
            )
            &&& after.cycle == state.cycle
            &&& after.next(definitions) == TurnStepView::Done
            &&& forall|events: Seq<TurnEvent>| #[trigger] after.run(claims, events) == after
        }),
{
    let after = state.step(claims, TurnEvent::ProviderReplied(Ok(response)));
    if response.messages.len() > 0 {
        assert((state.history + response.messages).last() == response.messages.last());
    }
    assert forall|events: Seq<TurnEvent>| #[trigger] after.run(claims, events) == after by {
        lemma_finished_stays(after, claims, events);
    }
}

/// `Stop` from a tool ends the turn with the fixed answer and an empty
/// conversation, whatever the cycle and however many attempts had failed.
pub proof fn law_stop_ends_turn(state: TurnState, claims: Seq<Set<Seq<char>>>, reason: Seq<char>)
    requires
        state.phase is AwaitingTool,
    ensures
        ({
            let after = state.step(claims, TurnEvent::ToolReplied(Ok(ToolOutputView::Stop(reason))));
            &&& after.outcome() == Some(Ok::<Seq<char>, OrchestrationErrorView>(finished_text()))
            &&& after.history == Seq::<ChatMessageView>::empty()
        }),
{
}

/// A turn that is over stays as it is, whatever is reported to it.
pub proof fn lemma_finished_stays(
    state: TurnState,
    claims: Seq<Set<Seq<char>>>,
    events: Seq<TurnEvent>,
)
    requires
        state.phase is Finished,
    ensures
        state.run(claims, events) == state,
    decreases events.len(),
{
    if events.len() > 0 {
        lemma_finished_stays(state, claims, events.drop_last());
    }
}

/// The reports of a tool that fails each time, with the given errors.
pub open spec fn failures(errors: Seq<ToolError>) -> Seq<TurnEvent> {
    errors.map_values(|error: ToolError| TurnEvent::ToolReplied(Err(error)))
}

/// A tool that always fails is tried `max_retries` times, and once where
/// `max_retries` is zero: after fewer failures the turn still waits for the
/// tool, with the failures counted, and asks for the tool to be invoked
/// again once the delay has passed; with the last of them the turn fails,
/// the failure names the tool, the attempts and the last error, and nothing
/// is invoked any more.
pub proof fn law_retries_exhaust(
    state: TurnState,
    claims: Seq<Set<Seq<char>>>,
    errors: Seq<ToolError>,
    definitions: Seq<ToolDefinitionView>,
)
    requires
        state.phase is AwaitingTool,
        state.phase->failures == 0,
        errors.len() <= attempts_allowed(state.max_retries),
    ensures
        ({
            let after = state.run(claims, failures(errors));
            &&& 0 < errors.len() < attempts_allowed(state.max_retries) ==> after.next(definitions)
                == (TurnStepView::Invoke {
                tool: state.phase->tool,
                name: state.phase->name,
                args: state.phase->args,
                delay_ms: state.retry_delay_ms,
            })
            &&& errors.len() == attempts_allowed(state.max_retries) ==> after.next(definitions)
                == TurnStepView::Done
            &&& errors.len() < attempts_allowed(state.max_retries) ==> after == state.with_phase(
                TurnPhaseView::AwaitingTool {
                    tool: state.phase->tool,
                    name: state.phase->name,
                    args: state.phase->args,
                    failures: errors.len(),
                },
            )
            &&& errors.len() == attempts_allowed(state.max_retries) ==> after == state.with_phase(
                TurnPhaseView::Finished(
                    Err(
                        OrchestrationErrorView::ToolExecutionFailed {
                            name: state.phase->name,
                            attempts: attempts_allowed(state.max_retries),
                            source: errors.last(),
                        },
                    ),
                ),
            )
        }),
    decreases errors.len(),
{
    if errors.len() == 0 {
        assert(state.with_phase(state.phase) == state);
    } else {
        let before = errors.drop_last();
        law_retries_exhaust(state, claims, before, definitions);
        assert(failures(errors).drop_last() =~= failures(before));
        assert(failures(errors).last() == TurnEvent::ToolReplied(Err(errors.last())));
    }
}

/// The replies of one cycle in which the turn goes on: the provider's answer,
/// the errors of the attempts that failed, and the tool's answer.
pub struct BusyCycle {
    pub response: ChatCompletionResponseView,
    pub errors: Seq<ToolError>,
    pub output: ToolOutputView,
}

/// Whether a cycle keeps the turn going: the provider asks for a tool that
/// some capability claims, and the tool answers while it has attempts left
/// with something other than `Stop`.
pub open spec fn keeps_going(claims: Seq<Set<Seq<char>>>, max_retries: nat, cycle: BusyCycle) -> bool {
    &&& cycle.response.tool_calls.len() > 0
    &&& first_owner(claims, cycle.response.tool_calls[0].name) is Some
    &&& cycle.errors.len() < attempts_allowed(max_retries)
    &&& !(cycle.output is Stop)
}

/// The reports of one cycle, in the order in which they arrive.
pub open spec fn reports_of(cycle: BusyCycle) -> Seq<TurnEvent> {
    seq![TurnEvent::ProviderReplied(Ok(cycle.response))] + failures(cycle.errors)
        + seq![TurnEvent::ToolReplied(Ok(cycle.output))]
}

/// The reports of a number of cycles, one cycle after the other.
pub open spec fn cycle_events(cycles: Seq<BusyCycle>) -> Seq<TurnEvent>
    decreases cycles.len(),
{
    if cycles.len() == 0 {
        Seq::empty()
    } else {
        cycle_events(cycles.drop_last()) + reports_of(cycles.last())
    }
}

/// One cycle in which the turn goes on ends with the entry check of the next.
pub proof fn lemma_busy_cycle(state: TurnState, claims: Seq<Set<Seq<char>>>, cycle: BusyCycle)
    requires
        state.phase is AwaitingProvider,
        keeps_going(claims, state.max_retries, cycle),
    ensures
        ({
            let after = state.run(claims, reports_of(cycle));
            let noted = TurnState {
                history: (state.history + cycle.response.messages).push(
                    tool_note(cycle.response.tool_calls[0].name, cycle.output),
                ),
                ..state
            };
            after == noted.enter_cycle()
        }),
{
    let asked = seq![TurnEvent::ProviderReplied(Ok(cycle.response))];
    let answered = seq![TurnEvent::ToolReplied(Ok(cycle.output))];
    let waiting = state.step(claims, TurnEvent::ProviderReplied(Ok(cycle.response)));
    lemma_run_one(state, claims, TurnEvent::ProviderReplied(Ok(cycle.response)));
    law_retries_exhaust(waiting, claims, cycle.errors, Seq::empty());
    let failed = waiting.run(claims, failures(cycle.errors));
    lemma_run_one(failed, claims, TurnEvent::ToolReplied(Ok(cycle.output)));
    lemma_run_concat(state, claims, asked, failures(cycle.errors));
    lemma_run_concat(state, claims, asked + failures(cycle.errors), answered);
}

/// A provider that never stops asking for tools gets `max_cycles` cycles and
/// no more: after fewer cycles the turn has entered the next one and waits
/// for the provider; at the entry check behind cycle `max_cycles` it fails
/// with the limit, and no further cycle has begun.
pub proof fn law_cycle_limit(
    max_cycles: nat,
    max_retries: nat,
    retry_delay_ms: nat,
    system_prompt: Seq<char>,
    prompt: Seq<char>,
    claims: Seq<Set<Seq<char>>>,
    cycles: Seq<BusyCycle>,
)
    requires
        cycles.len() <= max_cycles,
        forall|i: int| 0 <= i < cycles.len() ==> keeps_going(claims, max_retries, #[trigger] cycles[i]),
    ensures
        ({
            let after = TurnState::start(
                max_cycles,
                max_retries,
                retry_delay_ms,
                system_prompt,
                prompt,
            ).run(claims, cycle_events(cycles));
            &&& after.max_cycles == max_cycles
            &&& after.max_retries == max_retries
            &&& cycles.len() < max_cycles ==> after.phase is AwaitingProvider && after.cycle
                == cycles.len() + 1
            &&& cycles.len() == max_cycles ==> after.cycle == max_cycles && after.outcome()
                == Some(
                Err::<Seq<char>, OrchestrationErrorView>(
                    OrchestrationErrorView::CycleLimitExceeded(max_cycles),
                ),
            )
        }),
    decreases cycles.len(),
{
    let first = TurnState::start(max_cycles, max_retries, retry_delay_ms, system_prompt, prompt);
    if cycles.len() > 0 {
        let earlier = cycles.drop_last();
        assert forall|i: int| 0 <= i < earlier.len() implies keeps_going(
            claims,
            max_retries,
            #[trigger] earlier[i],
        ) by {
            assert(keeps_going(claims, max_retries, cycles[i]));
        }
        law_cycle_limit(
            max_cycles,
            max_retries,
            retry_delay_ms,
            system_prompt,
            prompt,
            claims,
            earlier,
        );
        let before = first.run(claims, cycle_events(earlier));
        assert(keeps_going(claims, max_retries, cycles[cycles.len() - 1]));
        lemma_busy_cycle(before, claims, cycles.last());
        lemma_run_concat(first, claims, cycle_events(earlier), reports_of(cycles.last()));
    }
}

/// What holds of a turn at every moment, given how it began.
pub open spec fn consistent(
    state: TurnState,
    claims: Seq<Set<Seq<char>>>,
    max_cycles: nat,
    max_retries: nat,
    retry_delay_ms: nat,
    system_prompt: Seq<char>,
    prompt: Seq<char>,
) -> bool {
    &&& state.max_cycles == max_cycles
    &&& state.max_retries == max_retries
    &&& state.retry_delay_ms == retry_delay_ms
    &&& state.valid(claims.len() as int)
    &&& state.history.len() == 0 || (state.history.len() >= 2 && state.history[0]
        == ChatMessageView::System(system_prompt) && state.history[1] == ChatMessageView::User(
        prompt,
    ))
    &&& state.history.len() == 0 ==> state.outcome() == Some(
        Ok::<Seq<char>, OrchestrationErrorView>(finished_text()),
    )
    &&& match state.phase {
        TurnPhaseView::AwaitingProvider => true,
        TurnPhaseView::AwaitingTool { tool, name, args, failures } => first_owner(claims, name)
            == Some(tool),
        TurnPhaseView::Finished(Ok(_)) => true,
        TurnPhaseView::Finished(Err(OrchestrationErrorView::ProviderError(_))) => true,
        TurnPhaseView::Finished(Err(OrchestrationErrorView::ToolNotFound(name))) => first_owner(
            claims,
            name,
        ) is None,
        TurnPhaseView::Finished(
            Err(OrchestrationErrorView::ToolExecutionFailed { name, attempts, source }),
        ) => first_owner(claims, name) is Some && attempts == attempts_allowed(max_retries),
        TurnPhaseView::Finished(Err(OrchestrationErrorView::CycleLimitExceeded(limit))) => limit
            == max_cycles && state.cycle == max_cycles,
    }
}

/// Whatever the provider and the tools reply: no cycle beyond the limit
/// begins; the conversation is empty only where a tool stopped the turn, and
/// begins with the standing instructions and the prompt otherwise; a tool
/// that is to be invoked is the first capability that claims its name; and a
/// failure says what happened: a tool is not found only where no capability
/// claims its name, a tool has failed only after all its attempts, and the
/// limit of cycles is reported only once that many cycles have begun.
pub proof fn law_turn_is_consistent(
    max_cycles: nat,
    max_retries: nat,
    retry_delay_ms: nat,
    system_prompt: Seq<char>,
    prompt: Seq<char>,
    claims: Seq<Set<Seq<char>>>,
    events: Seq<TurnEvent>,
)
    ensures
        consistent(
            TurnState::start(max_cycles, max_retries, retry_delay_ms, system_prompt, prompt).run(
                claims,
                events,
            ),
            claims,
            max_cycles,
            max_retries,
            retry_delay_ms,
            system_prompt,
            prompt,
        ),
    decreases events.len(),
{
    let first = TurnState::start(max_cycles, max_retries, retry_delay_ms, system_prompt, prompt);
    if events.len() > 0 {
        law_turn_is_consistent(
            max_cycles,
            max_retries,
            retry_delay_ms,
            system_prompt,
            prompt,
            claims,
            events.drop_last(),
        );
        let before = first.run(claims, events.drop_last());
        match events.last() {
            TurnEvent::ProviderReplied(reply) => {
                if before.phase is AwaitingProvider {
                    if let Ok(response) = reply {
                        if response.tool_calls.len() > 0 {
                            let name = response.tool_calls[0].name;
                            if first_owner(claims, name) is Some {
                                let i = choose|i: int| is_first_owner(claims, name, i);
                                assert(is_first_owner(claims, name, i));
                            }
                        }
                    }
                }
            },
            TurnEvent::ToolReplied(reply) => {},
        }
    }
}

} // verus!
