//! The fixed stopword list used by both text-normalization paths. The list is
//! the corpus's own 136-entry table of common English function words (a few
//! entries repeat in the source table; the repeats are harmless here).

use vstd::prelude::*;
use crate::chars::eq_chars_str;

verus! {

/// Whether a token is one of the stopwords.
pub open spec fn is_stopword(t: Seq<char>) -> bool {
    ||| t == "ourselves"@
    ||| t == "hers"@
    ||| t == "between"@
    ||| t == "yourself"@
    ||| t == "but"@
    ||| t == "again"@
    ||| t == "there"@
    ||| t == "about"@
    ||| t == "once"@
    ||| t == "during"@
    ||| t == "out"@
    ||| t == "very"@
    ||| t == "from"@
    ||| t == "re"@
    ||| t == "edu"@
    ||| t == "use"@
    ||| t == "published"@
    ||| t == "a"@
    ||| t == "has"@
    ||| t == "elsevier"@
    ||| t == "may"@
    ||| t == "having"@
    ||| t == "with"@
    ||| t == "they"@
    ||| t == "own"@
    ||| t == "an"@
    ||| t == "be"@
    ||| t == "some"@
    ||| t == "for"@
    ||| t == "do"@
    ||| t == "its"@
    ||| t == "yours"@
    ||| t == "such"@
    ||| t == "into"@
    ||| t == "of"@
    ||| t == "most"@
    ||| t == "itself"@
    ||| t == "other"@
    ||| t == "off"@
    ||| t == "is"@
    ||| t == "s"@
    ||| t == "am"@
    ||| t == "or"@
    ||| t == "who"@
    ||| t == "as"@
    ||| t == "from"@
    ||| t == "him"@
    ||| t == "each"@
    ||| t == "the"@
    ||| t == "themselves"@
    ||| t == "until"@
    ||| t == "below"@
    ||| t == "are"@
    ||| t == "we"@
    ||| t == "these"@
    ||| t == "your"@
    ||| t == "his"@
    ||| t == "through"@
    ||| t == "don"@
    ||| t == "nor"@
    ||| t == "me"@
    ||| t == "were"@
    ||| t == "her"@
    ||| t == "more"@
    ||| t == "himself"@
    ||| t == "this"@
    ||| t == "down"@
    ||| t == "should"@
    ||| t == "our"@
    ||| t == "their"@
    ||| t == "while"@
    ||| t == "above"@
    ||| t == "both"@
    ||| t == "up"@
    ||| t == "to"@
    ||| t == "ours"@
    ||| t == "had"@
    ||| t == "she"@
    ||| t == "all"@
    ||| t == "no"@
    ||| t == "when"@
    ||| t == "at"@
    ||| t == "any"@
    ||| t == "before"@
    ||| t == "them"@
    ||| t == "same"@
    ||| t == "and"@
    ||| t == "been"@
    ||| t == "have"@
    ||| t == "in"@
    ||| t == "will"@
    ||| t == "on"@
    ||| t == "does"@
    ||| t == "yourselves"@
    ||| t == "then"@
    ||| t == "that"@
    ||| t == "because"@
    ||| t == "what"@
    ||| t == "over"@
    ||| t == "why"@
    ||| t == "so"@
    ||| t == "can"@
    ||| t == "did"@
    ||| t == "not"@
    ||| t == "now"@
    ||| t == "under"@
    ||| t == "he"@
    ||| t == "you"@
    ||| t == "herself"@
    ||| t == "has"@
    ||| t == "just"@
    ||| t == "where"@
    ||| t == "too"@
    ||| t == "only"@
    ||| t == "myself"@
    ||| t == "which"@
    ||| t == "those"@
    ||| t == "i"@
    ||| t == "after"@
    ||| t == "few"@
    ||| t == "whom"@
    ||| t == "t"@
    ||| t == "being"@
    ||| t == "if"@
    ||| t == "theirs"@
    ||| t == "my"@
    ||| t == "against"@
    ||| t == "a"@
    ||| t == "by"@
    ||| t == "doing"@
    ||| t == "it"@
    ||| t == "how"@
    ||| t == "further"@
    ||| t == "was"@
    ||| t == "here"@
    ||| t == "than"@
}

/// Tests a token against the stopword list.
pub fn stop_token(t: &Vec<char>) -> (r: bool)
    ensures
        r == is_stopword(t@),
{
    false
    || eq_chars_str(t, "ourselves")
    || eq_chars_str(t, "hers")
    || eq_chars_str(t, "between")
    || eq_chars_str(t, "yourself")
    || eq_chars_str(t, "but")
    || eq_chars_str(t, "again")
    || eq_chars_str(t, "there")
    || eq_chars_str(t, "about")
    || eq_chars_str(t, "once")
    || eq_chars_str(t, "during")
    || eq_chars_str(t, "out")
    || eq_chars_str(t, "very")
    || eq_chars_str(t, "from")
    || eq_chars_str(t, "re")
    || eq_chars_str(t, "edu")
    || eq_chars_str(t, "use")
    || eq_chars_str(t, "published")
    || eq_chars_str(t, "a")
    || eq_chars_str(t, "has")
    || eq_chars_str(t, "elsevier")
    || eq_chars_str(t, "may")
    || eq_chars_str(t, "having")
    || eq_chars_str(t, "with")
    || eq_chars_str(t, "they")
    || eq_chars_str(t, "own")
    || eq_chars_str(t, "an")
    || eq_chars_str(t, "be")
    || eq_chars_str(t, "some")
    || eq_chars_str(t, "for")
    || eq_chars_str(t, "do")
    || eq_chars_str(t, "its")
    || eq_chars_str(t, "yours")
    || eq_chars_str(t, "such")
    || eq_chars_str(t, "into")
    || eq_chars_str(t, "of")
    || eq_chars_str(t, "most")
    || eq_chars_str(t, "itself")
    || eq_chars_str(t, "other")
    || eq_chars_str(t, "off")
    || eq_chars_str(t, "is")
    || eq_chars_str(t, "s")
    || eq_chars_str(t, "am")
    || eq_chars_str(t, "or")
    || eq_chars_str(t, "who")
    || eq_chars_str(t, "as")
    || eq_chars_str(t, "from")
    || eq_chars_str(t, "him")
    || eq_chars_str(t, "each")
    || eq_chars_str(t, "the")
    || eq_chars_str(t, "themselves")
    || eq_chars_str(t, "until")
    || eq_chars_str(t, "below")
    || eq_chars_str(t, "are")
    || eq_chars_str(t, "we")
    || eq_chars_str(t, "these")
    || eq_chars_str(t, "your")
    || eq_chars_str(t, "his")
    || eq_chars_str(t, "through")
    || eq_chars_str(t, "don")
    || eq_chars_str(t, "nor")
    || eq_chars_str(t, "me")
    || eq_chars_str(t, "were")
    || eq_chars_str(t, "her")
    || eq_chars_str(t, "more")
    || eq_chars_str(t, "himself")
    || eq_chars_str(t, "this")
    || eq_chars_str(t, "down")
    || eq_chars_str(t, "should")
    || eq_chars_str(t, "our")
    || eq_chars_str(t, "their")
    || eq_chars_str(t, "while")
    || eq_chars_str(t, "above")
    || eq_chars_str(t, "both")
    || eq_chars_str(t, "up")
    || eq_chars_str(t, "to")
    || eq_chars_str(t, "ours")
    || eq_chars_str(t, "had")
    || eq_chars_str(t, "she")
    || eq_chars_str(t, "all")
    || eq_chars_str(t, "no")
    || eq_chars_str(t, "when")
    || eq_chars_str(t, "at")
    || eq_chars_str(t, "any")
    || eq_chars_str(t, "before")
    || eq_chars_str(t, "them")
    || eq_chars_str(t, "same")
    || eq_chars_str(t, "and")
    || eq_chars_str(t, "been")
    || eq_chars_str(t, "have")
    || eq_chars_str(t, "in")
    || eq_chars_str(t, "will")
    || eq_chars_str(t, "on")
    || eq_chars_str(t, "does")
    || eq_chars_str(t, "yourselves")
    || eq_chars_str(t, "then")
    || eq_chars_str(t, "that")
    || eq_chars_str(t, "because")
    || eq_chars_str(t, "what")
    || eq_chars_str(t, "over")
    || eq_chars_str(t, "why")
    || eq_chars_str(t, "so")
    || eq_chars_str(t, "can")
    || eq_chars_str(t, "did")
    || eq_chars_str(t, "not")
    || eq_chars_str(t, "now")
    || eq_chars_str(t, "under")
    || eq_chars_str(t, "he")
    || eq_chars_str(t, "you")
    || eq_chars_str(t, "herself")
    || eq_chars_str(t, "has")
    || eq_chars_str(t, "just")
    || eq_chars_str(t, "where")
    || eq_chars_str(t, "too")
    || eq_chars_str(t, "only")
    || eq_chars_str(t, "myself")
    || eq_chars_str(t, "which")
    || eq_chars_str(t, "those")
    || eq_chars_str(t, "i")
    || eq_chars_str(t, "after")
    || eq_chars_str(t, "few")
    || eq_chars_str(t, "whom")
    || eq_chars_str(t, "t")
    || eq_chars_str(t, "being")
    || eq_chars_str(t, "if")
    || eq_chars_str(t, "theirs")
    || eq_chars_str(t, "my")
    || eq_chars_str(t, "against")
    || eq_chars_str(t, "a")
    || eq_chars_str(t, "by")
    || eq_chars_str(t, "doing")
    || eq_chars_str(t, "it")
    || eq_chars_str(t, "how")
    || eq_chars_str(t, "further")
    || eq_chars_str(t, "was")
    || eq_chars_str(t, "here")
    || eq_chars_str(t, "than")
}

} // verus!
