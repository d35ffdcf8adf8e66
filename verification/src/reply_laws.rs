//! Laws of the reply engine, proved of every engine, utterance and history.

use vstd::prelude::*;

use crate::ai::{
    apply_rules, draft_for, eager_prefix, fallback_sentence, fallback_suggestions,
    hesitant_prefix, opening_draft, personality_prefix, recent_audio, response_to, rule_fires,
    Draft, DwightResponse, EngineView, RuleView, BASE_CONFIDENCE, EAGER_ABOVE, FULL_CONFIDENCE,
    HESITANT_BELOW,
};
use crate::records::MemoryView;
use crate::text::{lowercase_of, occurs_at, occurs_in, starts_with};

verus! {

/// Rules of which none fires leave a draft as it was.
pub proof fn lemma_silent_rules_change_nothing(
    draft: Draft,
    rules: Seq<RuleView>,
    knowledge: Map<Seq<char>, Seq<Seq<char>>>,
    lowered: Seq<char>,
)
    requires
        forall|i: int| 0 <= i < rules.len() ==> !rule_fires(#[trigger] rules[i], lowered),
    ensures
        apply_rules(draft, rules, knowledge, lowered) == draft,
    decreases rules.len(),
{
    if rules.len() > 0 {
        let earlier = rules.drop_last();
        assert forall|i: int| 0 <= i < earlier.len() implies !rule_fires(
            #[trigger] earlier[i],
            lowered,
        ) by {
            assert(earlier[i] == rules[i]);
        }
        lemma_silent_rules_change_nothing(draft, earlier, knowledge, lowered);
        assert(!rule_fires(rules[rules.len() - 1], lowered));
    }
}

/// Rules never take confidence away.
pub proof fn lemma_rules_only_add_confidence(
    draft: Draft,
    rules: Seq<RuleView>,
    knowledge: Map<Seq<char>, Seq<Seq<char>>>,
    lowered: Seq<char>,
)
    ensures
        apply_rules(draft, rules, knowledge, lowered).score >= draft.score,
    decreases rules.len(),
{
    if rules.len() > 0 {
        lemma_rules_only_add_confidence(draft, rules.drop_last(), knowledge, lowered);
    }
}

/// An utterance in which no keyword of any rule occurs, asked without
/// history, gets the fallback and nothing else: the reply does not claim to
/// have used context, its message is the fallback sentence, which holds the
/// utterance as it was typed, its confidence is the base confidence, and its
/// suggestions are the two generic ones.
pub proof fn lemma_unmatched_utterance_is_echoed(
    engine: EngineView,
    utterance: Seq<char>,
    history: Seq<MemoryView>,
)
    requires
        history.len() == 0,
        forall|i: int|
            0 <= i < engine.rules.len() ==> !rule_fires(
                #[trigger] engine.rules[i],
                lowercase_of(utterance),
            ),
    ensures
        !response_to(engine, utterance, history).context_used,
        response_to(engine, utterance, history).message == fallback_sentence(utterance),
        occurs_in(utterance, response_to(engine, utterance, history).message),
        response_to(engine, utterance, history).confidence == BASE_CONFIDENCE,
        response_to(engine, utterance, history).suggestions == fallback_suggestions(),
{
    let lowered = lowercase_of(utterance);
    lemma_silent_rules_change_nothing(opening_draft(), engine.rules, engine.knowledge, lowered);
    let reply = response_to(engine, utterance, history);
    assert(reply.message =~= fallback_sentence(utterance));
    assert(reply.suggestions =~= fallback_suggestions());
    let lead = "Interesting input: '"@;
    assert(fallback_sentence(utterance).subrange(
        lead.len() as int,
        (lead.len() + utterance.len()) as int,
    ) =~= utterance);
    assert(occurs_at(utterance, reply.message, lead.len() as int));
}

/// The confidence of every reply lies between the base confidence and full
/// confidence, both included: so it is a percentage, and never low enough
/// for the hesitant opening.
pub proof fn lemma_confidence_is_bounded(
    engine: EngineView,
    utterance: Seq<char>,
    history: Seq<MemoryView>,
)
    ensures
        BASE_CONFIDENCE <= response_to(engine, utterance, history).confidence <= FULL_CONFIDENCE,
{
    lemma_rules_only_add_confidence(
        opening_draft(),
        engine.rules,
        engine.knowledge,
        lowercase_of(utterance),
    );
}

/// A reply more confident than `EAGER_ABOVE` opens with the eager prefix,
/// and one less confident than `HESITANT_BELOW` opens with the hesitant
/// prefix. No message opens with both.
pub proof fn lemma_opening_follows_confidence(
    engine: EngineView,
    utterance: Seq<char>,
    history: Seq<MemoryView>,
)
    ensures
        response_to(engine, utterance, history).confidence > EAGER_ABOVE ==> starts_with(
            response_to(engine, utterance, history).message,
            eager_prefix(),
        ),
        response_to(engine, utterance, history).confidence < HESITANT_BELOW ==> starts_with(
            response_to(engine, utterance, history).message,
            hesitant_prefix(),
        ),
        !(starts_with(response_to(engine, utterance, history).message, eager_prefix())
            && starts_with(response_to(engine, utterance, history).message, hesitant_prefix())),
{
    let reply = response_to(engine, utterance, history);
    let draft = draft_for(
        engine,
        utterance,
        lowercase_of(utterance),
        history.len() > 0,
        recent_audio(history),
    );
    let prefix = personality_prefix(draft.score);
    assert(reply.message.subrange(0, prefix.len() as int) =~= prefix);
    reveal_strlit("Excellent question! ");
    reveal_strlit("I'm still processing that. ");
    if starts_with(reply.message, eager_prefix()) && starts_with(reply.message, hesitant_prefix()) {
        assert(reply.message.subrange(0, eager_prefix().len() as int)[0] == 'E');
        assert(reply.message.subrange(0, hesitant_prefix().len() as int)[0] == 'I');
    }
}

/// A reply says that context was used exactly when the history is not empty,
/// whatever the history holds.
pub proof fn lemma_context_used_iff_history(
    engine: EngineView,
    utterance: Seq<char>,
    history: Seq<MemoryView>,
)
    ensures
        response_to(engine, utterance, history).context_used <==> history.len() > 0,
{
}

/// Two replies of one engine to the same utterance after the same history
/// are the same reply: the same message, confidence, flag and suggestions.
pub proof fn lemma_same_question_same_reply(
    engine: EngineView,
    utterance: Seq<char>,
    history: Seq<MemoryView>,
    first: DwightResponse,
    second: DwightResponse,
)
    requires
        first@ == response_to(engine, utterance, history),
        second@ == response_to(engine, utterance, history),
    ensures
        first@ == second@,
        first.message@ == second.message@,
        first.confidence == second.confidence,
        first.context_used == second.context_used,
        first.suggestions.deep_view() == second.suggestions.deep_view(),
{
}

} // verus!
