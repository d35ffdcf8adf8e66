//! The reply engine: keyword rules over the lower-cased utterance, blended
//! with recent history, give a message, a confidence and follow-up
//! suggestions.
//!
//! Confidence is held in whole percent (`50` is one half), so that the
//! thresholds and the clamp are exact.

use vstd::hash_map::StringHashMap;
use vstd::prelude::*;
use vstd::string::StringExecFns;

use crate::records::{history_of, DwightMemory, MemoryView};
use crate::text::{
    chars_of, ends_with, has_suffix, join_with_space, joined, lowercase_of, mentions, occurs_in,
    to_lowercase,
};

verus! {

/// Confidence, in percent, before any rule has fired.
pub const BASE_CONFIDENCE: u8 = 50;

/// The largest confidence, in percent, that a reply reports.
pub const FULL_CONFIDENCE: u8 = 100;

/// Confidence, in percent, gained when there is any history at all.
pub const CONTEXT_BOOST: u8 = 10;

/// Above this confidence, in percent, the message opens eagerly.
pub const EAGER_ABOVE: u8 = 70;

/// Below this confidence, in percent, the message opens hesitantly.
pub const HESITANT_BELOW: u8 = 30;

/// How many of the most recent history entries are searched for the topic.
pub const RECENT_ENTRIES: usize = 3;

/// What the engine answers.
#[derive(Debug)]
pub struct DwightResponse {
    pub message: String,
    /// In percent, from 0 to 100.
    pub confidence: u8,
    /// Whether any history was supplied.
    pub context_used: bool,
    /// In the order in which the rules added them; repeats are kept.
    pub suggestions: Vec<String>,
}

/// A `DwightResponse` with its texts as character sequences.
#[verifier::ext_equal]
pub struct ReplyView {
    pub message: Seq<char>,
    pub confidence: nat,
    pub context_used: bool,
    pub suggestions: Seq<Seq<char>>,
}

impl View for DwightResponse {
    type V = ReplyView;

    open spec fn view(&self) -> ReplyView {
        ReplyView {
            message: self.message@,
            confidence: self.confidence as nat,
            context_used: self.context_used,
            suggestions: self.suggestions.deep_view(),
        }
    }
}

/// What a rule says when it fires.
pub enum RuleEffect {
    /// Every statement that the knowledge base holds under this topic; if it
    /// holds none, the rule has no effect at all.
    Topic(String),
    /// One fixed sentence.
    Sentence(String),
}

/// A `RuleEffect` with its text as a character sequence.
#[verifier::ext_equal]
pub enum EffectView {
    Topic(Seq<char>),
    Sentence(Seq<char>),
}

impl View for RuleEffect {
    type V = EffectView;

    open spec fn view(&self) -> EffectView {
        match self {
            RuleEffect::Topic(key) => EffectView::Topic(key@),
            RuleEffect::Sentence(sentence) => EffectView::Sentence(sentence@),
        }
    }
}

/// One keyword rule. It fires when any of its keywords occurs in the
/// lower-cased utterance.
pub struct Rule {
    pub keywords: Vec<String>,
    pub effect: RuleEffect,
    pub suggestions: Vec<String>,
    /// Confidence gained when the rule takes effect, in percent.
    pub boost: u8,
}

/// A `Rule` with its texts as character sequences.
#[verifier::ext_equal]
pub struct RuleView {
    pub keywords: Seq<Seq<char>>,
    pub effect: EffectView,
    pub suggestions: Seq<Seq<char>>,
    pub boost: nat,
}

impl View for Rule {
    type V = RuleView;

    open spec fn view(&self) -> RuleView {
        RuleView {
            keywords: self.keywords.deep_view(),
            effect: self.effect@,
            suggestions: self.suggestions.deep_view(),
            boost: self.boost as nat,
        }
    }
}

/// What an engine knows: statements by topic, the ordered rules, and the
/// traits of its personality.
#[verifier::ext_equal]
pub struct EngineView {
    pub knowledge: Map<Seq<char>, Seq<Seq<char>>>,
    pub rules: Seq<RuleView>,
    pub traits: Seq<Seq<char>>,
}

/// A reply under construction.
#[verifier::ext_equal]
pub struct Draft {
    pub fragments: Seq<Seq<char>>,
    pub suggestions: Seq<Seq<char>>,
    /// Confidence in percent, not yet clamped.
    pub score: nat,
}

/// The draft that every reply starts from.
pub open spec fn opening_draft() -> Draft {
    Draft { fragments: Seq::empty(), suggestions: Seq::empty(), score: BASE_CONFIDENCE as nat }
}

/// Some keyword of `rule` occurs in `lowered`.
pub open spec fn rule_fires(rule: RuleView, lowered: Seq<char>) -> bool {
    exists|k: int| 0 <= k < rule.keywords.len() && occurs_in(#[trigger] rule.keywords[k], lowered)
}

/// The statements that `rule` has to add, if it has any to add: those of its
/// topic, where the knowledge base holds the topic, or its one sentence.
pub open spec fn rule_statements(
    rule: RuleView,
    knowledge: Map<Seq<char>, Seq<Seq<char>>>,
) -> Option<Seq<Seq<char>>> {
    match rule.effect {
        EffectView::Topic(key) => if knowledge.contains_key(key) {
            Some(knowledge[key])
        } else {
            None
        },
        EffectView::Sentence(sentence) => Some(seq![sentence]),
    }
}

/// `draft` after `rule` had its turn: unchanged unless the rule fires and has
/// statements to add; else longer by those statements and by the rule's
/// suggestions, and more confident by its boost.
pub open spec fn apply_rule(
    draft: Draft,
    rule: RuleView,
    knowledge: Map<Seq<char>, Seq<Seq<char>>>,
    lowered: Seq<char>,
) -> Draft {
    match rule_statements(rule, knowledge) {
        Some(statements) => if rule_fires(rule, lowered) {
            Draft {
                fragments: draft.fragments + statements,
                suggestions: draft.suggestions + rule.suggestions,
                score: draft.score + rule.boost,
            }
        } else {
            draft
        },
        None => draft,
    }
}

/// `draft` after each of `rules` had its turn, first to last.
pub open spec fn apply_rules(
    draft: Draft,
    rules: Seq<RuleView>,
    knowledge: Map<Seq<char>, Seq<Seq<char>>>,
    lowered: Seq<char>,
) -> Draft
    decreases rules.len(),
{
    if rules.len() == 0 {
        draft
    } else {
        apply_rule(
            apply_rules(draft, rules.drop_last(), knowledge, lowered),
            rules.last(),
            knowledge,
            lowered,
        )
    }
}

/// The sentence that ties a reply to an earlier exchange about audio.
pub open spec fn continuity_sentence() -> Seq<char> {
    "Continuing our discussion about audio analysis..."@
}

/// `draft` after the history was taken into account: with any history the
/// confidence grows, and where the recent exchanges were about audio the
/// continuity sentence is added.
pub open spec fn blend_context(draft: Draft, context_used: bool, continuing: bool) -> Draft {
    if context_used {
        Draft {
            fragments: if continuing {
                draft.fragments.push(continuity_sentence())
            } else {
                draft.fragments
            },
            suggestions: draft.suggestions,
            score: draft.score + CONTEXT_BOOST as nat,
        }
    } else {
        draft
    }
}

/// The sentence said when nothing else was: it echoes the utterance as it
/// was typed.
pub open spec fn fallback_sentence(utterance: Seq<char>) -> Seq<char> {
    "Interesting input: '"@ + utterance
        + "'. I'm always learning and analyzing. Could you provide more context about what you'd like me to help you with regarding audio analysis or security monitoring?"@
}

/// The two suggestions that go with the fallback sentence.
pub open spec fn fallback_suggestions() -> Seq<Seq<char>> {
    seq!["Tell me more about your audio needs"@, "Explain what you're trying to accomplish"@]
}

/// `draft`, or, where it has no fragment yet, the fallback for `utterance`.
pub open spec fn with_fallback(draft: Draft, utterance: Seq<char>) -> Draft {
    if draft.fragments.len() == 0 {
        Draft {
            fragments: seq![fallback_sentence(utterance)],
            suggestions: draft.suggestions + fallback_suggestions(),
            score: draft.score,
        }
    } else {
        draft
    }
}

/// How a message opens when the engine is confident.
pub open spec fn eager_prefix() -> Seq<char> {
    "Excellent question! "@
}

/// How a message opens when the engine is not confident.
pub open spec fn hesitant_prefix() -> Seq<char> {
    "I'm still processing that. "@
}

/// How a message of the given confidence, in percent, opens.
pub open spec fn personality_prefix(score: nat) -> Seq<char> {
    if score > EAGER_ABOVE {
        eager_prefix()
    } else if score < HESITANT_BELOW {
        hesitant_prefix()
    } else {
        Seq::empty()
    }
}

/// The draft for an utterance: the rules, then the history, then the
/// fallback.
pub open spec fn draft_for(
    engine: EngineView,
    utterance: Seq<char>,
    lowered: Seq<char>,
    context_used: bool,
    continuing: bool,
) -> Draft {
    with_fallback(
        blend_context(
            apply_rules(opening_draft(), engine.rules, engine.knowledge, lowered),
            context_used,
            continuing,
        ),
        utterance,
    )
}

/// The reply that a finished draft stands for.
pub open spec fn finish(draft: Draft, context_used: bool) -> ReplyView {
    ReplyView {
        message: personality_prefix(draft.score) + joined(draft.fragments, " "@),
        confidence: if draft.score > FULL_CONFIDENCE {
            FULL_CONFIDENCE as nat
        } else {
            draft.score
        },
        context_used,
        suggestions: draft.suggestions,
    }
}

/// The reply to `utterance`, given its lower-cased form, whether there is any
/// history, and whether the recent history was about audio.
pub open spec fn compose(
    engine: EngineView,
    utterance: Seq<char>,
    lowered: Seq<char>,
    context_used: bool,
    continuing: bool,
) -> ReplyView {
    finish(draft_for(engine, utterance, lowered, context_used, continuing), context_used)
}

/// One of the first `RECENT_ENTRIES` entries of `history` has a user input
/// that, lower-cased, mentions audio.
pub open spec fn recent_audio(history: Seq<MemoryView>) -> bool {
    exists|i: int|
        0 <= i < history.len() && i < RECENT_ENTRIES && occurs_in(
            "audio"@,
            lowercase_of(#[trigger] history[i].user_input),
        )
}

/// The reply to `utterance` after `history`, most recent exchange first.
pub open spec fn response_to(
    engine: EngineView,
    utterance: Seq<char>,
    history: Seq<MemoryView>,
) -> ReplyView {
    compose(engine, utterance, lowercase_of(utterance), history.len() > 0, recent_audio(history))
}

} // verus!

verus! {

/// Owned copies of `items`, in order.
fn owned(items: &[&str]) -> (texts: Vec<String>)
    ensures
        texts.deep_view() == items@.map_values(|item: &str| item@),
{
    let mut texts: Vec<String> = Vec::new();
    let mut i: usize = 0;
    while i < items.len()
        invariant
            i <= items.len(),
            texts@.len() == i,
            forall|j: int| 0 <= j < i ==> (#[trigger] texts@[j])@ == items@[j]@,
        decreases items.len() - i,
    {
        texts.push(String::from_str(items[i]));
        i += 1;
    }
    assert(texts.deep_view() =~= items@.map_values(|item: &str| item@));
    texts
}

/// What the assistant knows about audio.
pub open spec fn audio_statements() -> Seq<Seq<char>> {
    seq![
        "I can analyze audio files for speech transcription"@,
        "I detect non-verbal sounds like footsteps, gunshots, car doors"@,
        "I can help you set up triggers for specific sounds or phrases"@,
        "I use advanced signal processing to identify acoustic patterns"@,
    ]
}

/// What the assistant knows about security and forensics.
pub open spec fn security_statements() -> Seq<Seq<char>> {
    seq![
        "I'm designed for audio surveillance and forensic analysis"@,
        "I can help identify suspicious activities through sound patterns"@,
        "I maintain detailed logs of all audio events for review"@,
    ]
}

/// What the assistant knows about its own learning.
pub open spec fn learning_statements() -> Seq<Seq<char>> {
    seq![
        "I continuously learn from our interactions to better assist you"@,
        "I can analyze my own responses and improve my accuracy over time"@,
        "I store conversation context to provide more personalized assistance"@,
    ]
}

/// The knowledge base of the standard engine.
pub open spec fn standard_knowledge() -> Map<Seq<char>, Seq<Seq<char>>> {
    Map::empty().insert("audio"@, audio_statements()).insert(
        "security"@,
        security_statements(),
    ).insert("learning"@, learning_statements())
}

/// The personality traits of the standard engine.
pub open spec fn standard_traits() -> Seq<Seq<char>> {
    seq![
        "Brilliant and analytical"@,
        "Loyal and dedicated to the mission"@,
        "Technically proficient with audio analysis"@,
        "Vigilant and security-focused"@,
        "Respectful but confident in my capabilities"@,
    ]
}

/// Talk of audio brings what the assistant knows about audio.
pub open spec fn audio_rule() -> RuleView {
    RuleView {
        keywords: seq!["audio"@, "sound"@, "recording"@],
        effect: EffectView::Topic("audio"@),
        suggestions: Seq::empty(),
        boost: 30,
    }
}

/// Talk of triggers brings an offer to set one up.
pub open spec fn trigger_rule() -> RuleView {
    RuleView {
        keywords: seq!["trigger"@, "detect"@, "alert"@],
        effect: EffectView::Sentence(
            "I can help you set up custom triggers for sounds or speech patterns. Would you like me to show you how?"@,
        ),
        suggestions: seq!["Set up sound trigger"@, "Configure speech trigger"@],
        boost: 20,
    }
}

/// Talk of transcripts brings an offer to transcribe.
pub open spec fn transcription_rule() -> RuleView {
    RuleView {
        keywords: seq!["transcribe"@, "transcript"@],
        effect: EffectView::Sentence(
            "I can transcribe audio files using advanced speech recognition. Just upload an audio file and I'll process it for you."@,
        ),
        suggestions: seq!["Upload audio file"@],
        boost: 30,
    }
}

/// Talk of improvement brings what the assistant knows about its learning.
pub open spec fn learning_rule() -> RuleView {
    RuleView {
        keywords: seq!["learn"@, "improve"@, "better"@],
        effect: EffectView::Topic("learning"@),
        suggestions: Seq::empty(),
        boost: 20,
    }
}

/// A call for help brings an offer of help.
pub open spec fn help_rule() -> RuleView {
    RuleView {
        keywords: seq!["help"@, "assist"@],
        effect: EffectView::Sentence(
            "I'm here to help you with audio analysis, transcription, and security monitoring. What would you like me to help you with today?"@,
        ),
        suggestions: seq![
            "Analyze audio file"@,
            "Set up triggers"@,
            "Review recordings"@,
            "Check system status"@,
        ],
        boost: 10,
    }
}

/// The rules of the standard engine, in the order in which they are tried.
pub open spec fn standard_rules() -> Seq<RuleView> {
    seq![audio_rule(), trigger_rule(), transcription_rule(), learning_rule(), help_rule()]
}

/// The engine that `DwightAI::new` builds.
pub open spec fn standard_engine() -> EngineView {
    EngineView {
        knowledge: standard_knowledge(),
        rules: standard_rules(),
        traits: standard_traits(),
    }
}

/// The reply engine. Its knowledge, rules and traits are fixed when it is
/// built; replying never changes them.
pub struct DwightAI {
    knowledge_base: StringHashMap<Vec<String>>,
    personality_traits: Vec<String>,
    rules: Vec<Rule>,
}

impl View for DwightAI {
    type V = EngineView;

    closed spec fn view(&self) -> EngineView {
        EngineView {
            knowledge: self.knowledge_base@.map_values(|statements: Vec<String>| statements.deep_view()),
            rules: self.rules@.map_values(|rule: Rule| rule@),
            traits: self.personality_traits.deep_view(),
        }
    }
}

/// The audio statements, owned.
fn audio_knowledge() -> (statements: Vec<String>)
    ensures
        statements.deep_view() == audio_statements(),
{
    let statements = owned(
        &[
            "I can analyze audio files for speech transcription",
            "I detect non-verbal sounds like footsteps, gunshots, car doors",
            "I can help you set up triggers for specific sounds or phrases",
            "I use advanced signal processing to identify acoustic patterns",
        ],
    );
    assert(statements.deep_view() =~= audio_statements());
    statements
}

/// The security statements, owned.
fn security_knowledge() -> (statements: Vec<String>)
    ensures
        statements.deep_view() == security_statements(),
{
    let statements = owned(
        &[
            "I'm designed for audio surveillance and forensic analysis",
            "I can help identify suspicious activities through sound patterns",
            "I maintain detailed logs of all audio events for review",
        ],
    );
    assert(statements.deep_view() =~= security_statements());
    statements
}

/// The learning statements, owned.
fn learning_knowledge() -> (statements: Vec<String>)
    ensures
        statements.deep_view() == learning_statements(),
{
    let statements = owned(
        &[
            "I continuously learn from our interactions to better assist you",
            "I can analyze my own responses and improve my accuracy over time",
            "I store conversation context to provide more personalized assistance",
        ],
    );
    assert(statements.deep_view() =~= learning_statements());
    statements
}

/// The personality traits, owned.
fn personality() -> (traits: Vec<String>)
    ensures
        traits.deep_view() == standard_traits(),
{
    let traits = owned(
        &[
            "Brilliant and analytical",
            "Loyal and dedicated to the mission",
            "Technically proficient with audio analysis",
            "Vigilant and security-focused",
            "Respectful but confident in my capabilities",
        ],
    );
    assert(traits.deep_view() =~= standard_traits());
    traits
}

/// A rule that says what the knowledge base holds under `topic`.
fn topic_rule(keywords: &[&str], topic: &str, boost: u8) -> (rule: Rule)
    ensures
        rule@ == (RuleView {
            keywords: keywords@.map_values(|item: &str| item@),
            effect: EffectView::Topic(topic@),
            suggestions: Seq::empty(),
            boost: boost as nat,
        }),
{
    let rule = Rule {
        keywords: owned(keywords),
        effect: RuleEffect::Topic(String::from_str(topic)),
        suggestions: Vec::new(),
        boost,
    };
    assert(rule.suggestions.deep_view() =~= Seq::empty());
    rule
}

/// A rule that says one sentence and makes suggestions.
fn sentence_rule(keywords: &[&str], sentence: &str, suggestions: &[&str], boost: u8) -> (rule: Rule)
    ensures
        rule@ == (RuleView {
            keywords: keywords@.map_values(|item: &str| item@),
            effect: EffectView::Sentence(sentence@),
            suggestions: suggestions@.map_values(|item: &str| item@),
            boost: boost as nat,
        }),
{
    Rule {
        keywords: owned(keywords),
        effect: RuleEffect::Sentence(String::from_str(sentence)),
        suggestions: owned(suggestions),
        boost,
    }
}

/// The rules of the standard engine, owned.
fn rule_table() -> (rules: Vec<Rule>)
    ensures
        rules@.map_values(|rule: Rule| rule@) == standard_rules(),
{
    let audio = topic_rule(&["audio", "sound", "recording"], "audio", 30);
    assert(audio@.keywords =~= audio_rule().keywords);
    let trigger = sentence_rule(
        &["trigger", "detect", "alert"],
        "I can help you set up custom triggers for sounds or speech patterns. Would you like me to show you how?",
        &["Set up sound trigger", "Configure speech trigger"],
        20,
    );
    assert(trigger@.keywords =~= trigger_rule().keywords);
    assert(trigger@.suggestions =~= trigger_rule().suggestions);
    let transcription = sentence_rule(
        &["transcribe", "transcript"],
        "I can transcribe audio files using advanced speech recognition. Just upload an audio file and I'll process it for you.",
        &["Upload audio file"],
        30,
    );
    assert(transcription@.keywords =~= transcription_rule().keywords);
    assert(transcription@.suggestions =~= transcription_rule().suggestions);
    let learning = topic_rule(&["learn", "improve", "better"], "learning", 20);
    assert(learning@.keywords =~= learning_rule().keywords);
    let help = sentence_rule(
        &["help", "assist"],
        "I'm here to help you with audio analysis, transcription, and security monitoring. What would you like me to help you with today?",
        &["Analyze audio file", "Set up triggers", "Review recordings", "Check system status"],
        10,
    );
    assert(help@.keywords =~= help_rule().keywords);
    assert(help@.suggestions =~= help_rule().suggestions);
    let mut rules: Vec<Rule> = Vec::new();
    rules.push(audio);
    rules.push(trigger);
    rules.push(transcription);
    rules.push(learning);
    rules.push(help);
    assert(rules@.map_values(|rule: Rule| rule@) =~= standard_rules());
    rules
}

impl DwightAI {
    /// The standard engine.
    pub fn new() -> (engine: Self)
        ensures
            engine@ == standard_engine(),
    {
        let mut knowledge_base: StringHashMap<Vec<String>> = StringHashMap::new();
        knowledge_base.insert(String::from_str("audio"), audio_knowledge());
        knowledge_base.insert(String::from_str("security"), security_knowledge());
        knowledge_base.insert(String::from_str("learning"), learning_knowledge());
        let engine = DwightAI {
            knowledge_base,
            personality_traits: personality(),
            rules: rule_table(),
        };
        assert(engine@.knowledge =~= standard_knowledge());
        engine
    }
}

/// A reply under construction, as the engine holds it.
struct ReplyDraft {
    fragments: Vec<String>,
    suggestions: Vec<String>,
    /// Wide enough for the boosts of any number of rules.
    score: u128,
}

impl View for ReplyDraft {
    type V = Draft;

    closed spec fn view(&self) -> Draft {
        Draft {
            fragments: self.fragments.deep_view(),
            suggestions: self.suggestions.deep_view(),
            score: self.score as nat,
        }
    }
}

/// Appends copies of the texts of `source` to `target`.
fn extend_with(target: &mut Vec<String>, source: &Vec<String>)
    ensures
        final(target).deep_view() == old(target).deep_view() + source.deep_view(),
{
    let mut i: usize = 0;
    while i < source.len()
        invariant
            i <= source.len(),
            target@.len() == old(target)@.len() + i,
            forall|j: int| 0 <= j < old(target)@.len() ==> #[trigger] target@[j] == old(target)@[j],
            forall|j: int|
                old(target)@.len() <= j < old(target)@.len() + i ==> (#[trigger] target@[j])@
                    == source@[j - old(target)@.len()]@,
        decreases source.len() - i,
    {
        target.push(source[i].clone());
        i += 1;
    }
    assert(target.deep_view() =~= old(target).deep_view() + source.deep_view());
}

/// Whether some keyword of `rule` occurs in the text whose characters are
/// `lowered`.
fn fires(rule: &Rule, lowered: &[char]) -> (fired: bool)
    ensures
        fired == rule_fires(rule@, lowered@),
{
    let mut k: usize = 0;
    while k < rule.keywords.len()
        invariant
            k <= rule.keywords.len(),
            forall|j: int| 0 <= j < k ==> !occurs_in(#[trigger] rule@.keywords[j], lowered@),
        decreases rule.keywords.len() - k,
    {
        if mentions(lowered, rule.keywords[k].as_str()) {
            assert(occurs_in(rule@.keywords[k as int], lowered@));
            return true;
        }
        k += 1;
    }
    false
}

impl DwightAI {
    /// Gives `rule` its turn on `draft`.
    fn apply(&self, rule: &Rule, lowered: &[char], draft: &mut ReplyDraft)
        requires
            old(draft).score + u8::MAX <= u128::MAX,
        ensures
            final(draft)@ == apply_rule(old(draft)@, rule@, self@.knowledge, lowered@),
    {
        if !fires(rule, lowered) {
            return ;
        }
        match &rule.effect {
            RuleEffect::Topic(key) => {
                match self.knowledge_base.get(key.as_str()) {
                    Some(statements) => {
                        extend_with(&mut draft.fragments, statements);
                    },
                    None => {
                        return ;
                    },
                }
            },
            RuleEffect::Sentence(sentence) => {
                draft.fragments.push(sentence.clone());
                assert(draft.fragments.deep_view() =~= old(draft).fragments.deep_view() + seq![
                    sentence@,
                ]);
            },
        }
        extend_with(&mut draft.suggestions, &rule.suggestions);
        draft.score = draft.score + rule.boost as u128;
    }

    /// The reply to `user_input`, given its lower-cased form `input_lower`,
    /// whether there is any history (`context_used`), and whether the recent
    /// history was about audio (`continuing`, read only where there is
    /// history).
    pub fn compose_reply(
        &self,
        user_input: &str,
        input_lower: &str,
        context_used: bool,
        continuing: bool,
    ) -> (reply: DwightResponse)
        ensures
            reply@ == compose(self@, user_input@, input_lower@, context_used, continuing),
    {
        let lowered = chars_of(input_lower);
        let mut draft = ReplyDraft {
            fragments: Vec::new(),
            suggestions: Vec::new(),
            score: BASE_CONFIDENCE as u128,
        };
        assert(draft@ =~= opening_draft());
        let mut i: usize = 0;
        while i < self.rules.len()
            invariant
                i <= self.rules.len(),
                lowered@ == input_lower@,
                draft.score <= BASE_CONFIDENCE + u8::MAX * i,
                draft@ == apply_rules(
                    opening_draft(),
                    self@.rules.take(i as int),
                    self@.knowledge,
                    input_lower@,
                ),
            decreases self.rules.len() - i,
        {
            proof {
                let next = self@.rules.take(i + 1);
                assert(next.drop_last() =~= self@.rules.take(i as int));
                assert(next.last() == self.rules@[i as int]@);
            }
            self.apply(&self.rules[i], lowered.as_slice(), &mut draft);
            i += 1;
        }
        assert(self@.rules.take(self.rules.len() as int) =~= self@.rules);
        if context_used {
            if continuing {
                draft.fragments.push(String::from_str("Continuing our discussion about audio analysis..."));
            }
            draft.score = draft.score + CONTEXT_BOOST as u128;
        }
        assert(draft@ =~= blend_context(
            apply_rules(opening_draft(), self@.rules, self@.knowledge, input_lower@),
            context_used,
            continuing,
        ));
        if draft.fragments.len() == 0 {
            let mut sentence = String::from_str("Interesting input: '");
            sentence.append(user_input);
            sentence.append(
                "'. I'm always learning and analyzing. Could you provide more context about what you'd like me to help you with regarding audio analysis or security monitoring?",
            );
            draft.fragments.push(sentence);
            draft.suggestions.push(String::from_str("Tell me more about your audio needs"));
            draft.suggestions.push(String::from_str("Explain what you're trying to accomplish"));
        }
        assert(draft@ =~= draft_for(self@, user_input@, input_lower@, context_used, continuing));
        let mut message = if draft.score > EAGER_ABOVE as u128 {
            String::from_str("Excellent question! ")
        } else if draft.score < HESITANT_BELOW as u128 {
            String::from_str("I'm still processing that. ")
        } else {
            String::new()
        };
        let body = join_with_space(&draft.fragments);
        message.append(body.as_str());
        let confidence: u8 = if draft.score > FULL_CONFIDENCE as u128 {
            FULL_CONFIDENCE
        } else {
            draft.score as u8
        };
        DwightResponse { message, confidence, context_used, suggestions: draft.suggestions }
    }

    /// The reply to `user_input` after `context`, the most recent exchanges,
    /// newest first. Neither argument is changed, and any text and any
    /// history, empty or not, gets a reply.
    pub fn generate_response(&self, user_input: &str, context: &[DwightMemory]) -> (reply:
        DwightResponse)
        ensures
            reply@ == response_to(self@, user_input@, history_of(context@)),
            reply.confidence <= FULL_CONFIDENCE,
            reply.context_used == (context@.len() > 0),
    {
        let input_lower = to_lowercase(user_input);
        let context_used = context.len() > 0;
        let continuing = context_used && continues_audio_topic(context);
        self.compose_reply(user_input, input_lower.as_str(), context_used, continuing)
    }
}

/// Whether one of the first `RECENT_ENTRIES` entries of `context` has a user
/// input that, lower-cased, mentions audio.
pub fn continues_audio_topic(context: &[DwightMemory]) -> (continuing: bool)
    ensures
        continuing == recent_audio(history_of(context@)),
{
    let mut i: usize = 0;
    while i < context.len() && i < RECENT_ENTRIES
        invariant
            i <= context.len(),
            i <= RECENT_ENTRIES,
            forall|j: int|
                0 <= j < i ==> !occurs_in(
                    "audio"@,
                    lowercase_of(#[trigger] history_of(context@)[j].user_input),
                ),
        decreases context.len() - i,
    {
        let lowered = to_lowercase(context[i].user_input.as_str());
        let chars = chars_of(lowered.as_str());
        if mentions(chars.as_slice(), "audio") {
            assert(history_of(context@)[i as int].user_input == context@[i as int].user_input@);
            return true;
        }
        i += 1;
    }
    false
}

/// What is said of the format of the audio file at `path`, going by the end
/// of the path as it is written: something of a WAV file, something else of
/// an MP3 file, nothing of any other.
pub open spec fn format_notes(path: Seq<char>) -> Seq<Seq<char>> {
    if ends_with(path, ".wav"@) {
        seq!["WAV format detected - high quality uncompressed audio"@]
    } else if ends_with(path, ".mp3"@) {
        seq!["MP3 format detected - compressed audio, may have some quality loss"@]
    } else {
        Seq::empty()
    }
}

/// What is said of every audio file.
pub open spec fn standing_notes() -> Seq<Seq<char>> {
    seq![
        "Audio file ready for transcription and pattern analysis"@,
        "I can detect speech, identify speakers, and find non-verbal sounds"@,
        "Trigger detection is active for configured sound patterns"@,
    ]
}

/// What is said of the audio file at `audio_file_path`: of its format, if
/// the path tells it, and then what is said of every file. The file is not
/// read.
pub fn analyze_audio_intelligence(audio_file_path: &str) -> (analysis: Vec<String>)
    ensures
        analysis.deep_view() == format_notes(audio_file_path@) + standing_notes(),
{
    let path = chars_of(audio_file_path);
    let wav = chars_of(".wav");
    let mp3 = chars_of(".mp3");
    let mut analysis: Vec<String> = Vec::new();
    if has_suffix(path.as_slice(), wav.as_slice()) {
        analysis.push(String::from_str("WAV format detected - high quality uncompressed audio"));
    } else if has_suffix(path.as_slice(), mp3.as_slice()) {
        analysis.push(
            String::from_str("MP3 format detected - compressed audio, may have some quality loss"),
        );
    }
    assert(analysis.deep_view() =~= format_notes(audio_file_path@));
    analysis.push(String::from_str("Audio file ready for transcription and pattern analysis"));
    analysis.push(
        String::from_str("I can detect speech, identify speakers, and find non-verbal sounds"),
    );
    analysis.push(String::from_str("Trigger detection is active for configured sound patterns"));
    assert(analysis.deep_view() =~= format_notes(audio_file_path@) + standing_notes());
    analysis
}

} // verus!
