//! Grammar-based classification of chat-log lines.
//!
//! A line prefixed `"4,"` that announces a player joining the world
//! yields a join event; a line prefixed `"2,"` that carries a whisper
//! (`From`/`Sent to`) yields a whisper event, and, when it carries the
//! trade phrase, additionally a richer trade-message event.

use crate::text::{
    contains_str, contains_sub, find_sub, first_match, lemma_first_match_from, split_first_token,
    split_first_token_spec, starts_with, starts_with_spec, strip_star, strip_star_spec, trim,
    trim_spec,
};
use vstd::prelude::*;
use vstd::string::*;

verus! {

/// A whisper or join record mined from one log line.
#[derive(Clone, Debug)]
pub struct WhisperEvent {
    pub is_trade: bool,
    pub from: String,
    pub message: String,
    pub item_name: Option<String>,
    pub is_join: bool,
    pub is_incoming: bool,
}

/// A trade whisper with sender names and price kept separately.
#[derive(Clone, Debug)]
pub struct TradeMessageEvent {
    pub is_incoming: bool,
    pub player_name: String,
    pub account_name: Option<String>,
    pub character_name: Option<String>,
    pub message: String,
    pub item_name: Option<String>,
    pub price: Option<String>,
}

/// Mathematical image of a `WhisperEvent`.
pub struct WhisperFields {
    pub is_trade: bool,
    pub from: Seq<char>,
    pub message: Seq<char>,
    pub item_name: Option<Seq<char>>,
    pub is_join: bool,
    pub is_incoming: bool,
}

/// Mathematical image of a `TradeMessageEvent`.
pub struct TradeFields {
    pub is_incoming: bool,
    pub player_name: Seq<char>,
    pub account_name: Option<Seq<char>>,
    pub character_name: Option<Seq<char>>,
    pub message: Seq<char>,
    pub item_name: Option<Seq<char>>,
    pub price: Option<Seq<char>>,
}

pub open spec fn opt_str_view(o: Option<String>) -> Option<Seq<char>> {
    match o {
        Some(s) => Some(s@),
        None => None,
    }
}

impl View for WhisperEvent {
    type V = WhisperFields;

    open spec fn view(&self) -> WhisperFields {
        WhisperFields {
            is_trade: self.is_trade,
            from: self.from@,
            message: self.message@,
            item_name: opt_str_view(self.item_name),
            is_join: self.is_join,
            is_incoming: self.is_incoming,
        }
    }
}

impl View for TradeMessageEvent {
    type V = TradeFields;

    open spec fn view(&self) -> TradeFields {
        TradeFields {
            is_incoming: self.is_incoming,
            player_name: self.player_name@,
            account_name: opt_str_view(self.account_name),
            character_name: opt_str_view(self.character_name),
            message: self.message@,
            item_name: opt_str_view(self.item_name),
            price: opt_str_view(self.price),
        }
    }
}

pub open spec fn opt_whisper_view(o: Option<WhisperEvent>) -> Option<WhisperFields> {
    match o {
        Some(e) => Some(e@),
        None => None,
    }
}

pub open spec fn opt_trade_view(o: Option<TradeMessageEvent>) -> Option<TradeFields> {
    match o {
        Some(e) => Some(e@),
        None => None,
    }
}

/// Sender of a join announcement: the account name in parentheses
/// (leading `'*'` stripped) when present and non-empty, else the
/// character name before the parenthesis.
pub open spec fn join_sender_spec(player_part: Seq<char>) -> Seq<char> {
    match first_match(player_part, "("@) {
        Some(ps) => {
            let character = trim_spec(player_part.subrange(0, ps));
            let account = match first_match(player_part.skip(ps), ")"@) {
                Some(pe) => trim_spec(player_part.subrange(ps + 1, ps + pe)),
                None => Seq::<char>::empty(),
            };
            if account.len() > 0 {
                strip_star_spec(account)
            } else {
                character
            }
        },
        None => player_part,
    }
}

/// Classification of a `"4,"` line: a join announcement yields an
/// event whose message is everything after the prefix.
pub open spec fn parse_join_spec(line: Seq<char>) -> Option<WhisperFields> {
    if !contains_sub(line, " joined our world"@) {
        None
    } else {
        let after = line.skip(2);
        match first_match(after, " joined our world"@) {
            None => None,
            Some(jp) => {
                let player_part = trim_spec(after.subrange(0, jp));
                Some(
                    WhisperFields {
                        is_trade: false,
                        from: join_sender_spec(player_part),
                        message: after,
                        item_name: None,
                        is_join: true,
                        is_incoming: true,
                    },
                )
            },
        }
    }
}

/// Sender of a whisper: the account name in parentheses (leading `'*'`
/// stripped); without a well-formed parenthesis, the first
/// whitespace-delimited token of the sender part.
pub open spec fn whisper_sender_spec(sender_part: Seq<char>) -> Seq<char> {
    match first_match(sender_part, "("@) {
        Some(ps) => match first_match(sender_part.skip(ps), ")"@) {
            Some(pe) => strip_star_spec(trim_spec(sender_part.subrange(ps + 1, ps + pe))),
            None => split_first_token_spec(sender_part),
        },
        None => split_first_token_spec(sender_part),
    }
}

/// Friend login/logout notices are recognized and discarded.
pub open spec fn is_friend_notice_spec(message: Seq<char>) -> bool {
    contains_sub(message, "Your friend"@) && (contains_sub(message, "has left Project Diablo 2"@)
        || contains_sub(message, "has entered Project Diablo 2"@))
}

/// The item name of a trade message: the substring between `"your "`
/// and the following `" listed"`.
pub open spec fn item_name_spec(message: Seq<char>) -> Option<Seq<char>> {
    match first_match(message, "your "@) {
        Some(yp) => {
            let after_your = message.skip(yp + "your "@.len());
            match first_match(after_your, " listed"@) {
                Some(lp) => Some(trim_spec(after_your.subrange(0, lp))),
                None => None,
            }
        },
        None => None,
    }
}

/// The quoted price of a trade message: the substring after
/// `"listed for "` up to the next `'.'` or the end of the line.
pub open spec fn price_spec(message: Seq<char>) -> Option<Seq<char>> {
    match first_match(message, "listed for "@) {
        Some(lp) => {
            let after = message.skip(lp + "listed for "@.len());
            let end = match first_match(after, "."@) {
                Some(d) => d,
                None => after.len() as int,
            };
            Some(trim_spec(after.subrange(0, end)))
        },
        None => None,
    }
}

/// The part of a whisper line after `"From "` or `"Sent to "`,
/// whichever applies; incoming (`From`) takes precedence.
pub open spec fn whisper_body_spec(line: Seq<char>) -> Option<(bool, Seq<char>)> {
    let inc = contains_sub(line, "From "@);
    let out = contains_sub(line, "Sent to "@);
    if inc {
        match first_match(line, "From "@) {
            Some(fp) => Some((true, line.skip(fp + "From "@.len()))),
            None => None,
        }
    } else if out {
        match first_match(line, "Sent to "@) {
            Some(sp) => Some((false, line.skip(sp + "Sent to "@.len()))),
            None => None,
        }
    } else {
        None
    }
}

/// Classification of a `"2,"` line as a whisper.
pub open spec fn parse_whisper2_spec(line: Seq<char>) -> Option<WhisperFields> {
    match whisper_body_spec(line) {
        None => None,
        Some((inc, after)) => match first_match(after, ":"@) {
            None => None,
            Some(cp) => {
                let sender_part = trim_spec(after.subrange(0, cp));
                let message = trim_spec(after.skip(cp + 1));
                if is_friend_notice_spec(message) {
                    None
                } else {
                    let is_trade = starts_with_spec(message, "Hi, I'm interested in your "@);
                    Some(
                        WhisperFields {
                            is_trade,
                            from: whisper_sender_spec(sender_part),
                            message,
                            item_name: if is_trade {
                                item_name_spec(message)
                            } else {
                                None
                            },
                            is_join: false,
                            is_incoming: inc,
                        },
                    )
                }
            },
        },
    }
}

/// What one line yields as a whisper or join event, if anything.
pub open spec fn parse_whisper_spec(line: Seq<char>) -> Option<WhisperFields> {
    if starts_with_spec(line, "4,"@) {
        parse_join_spec(line)
    } else if starts_with_spec(line, "2,"@) {
        parse_whisper2_spec(line)
    } else {
        None
    }
}

/// Sender names of a trade message: character name, account name and
/// the preferred display name.
pub open spec fn trade_names_spec(sender_part: Seq<char>) -> (Option<Seq<char>>, Option<
    Seq<char>,
>, Seq<char>) {
    match first_match(sender_part, "("@) {
        Some(ps) => {
            let char_name = trim_spec(sender_part.subrange(0, ps));
            match first_match(sender_part.skip(ps), ")"@) {
                Some(pe) => {
                    let acc = strip_star_spec(trim_spec(sender_part.subrange(ps + 1, ps + pe)));
                    (Some(char_name), Some(acc), acc)
                },
                None => (Some(char_name), None, char_name),
            }
        },
        None => (
            Some(split_first_token_spec(sender_part)),
            None,
            split_first_token_spec(sender_part),
        ),
    }
}

/// Exec counterpart of `join_sender_spec`.
fn join_sender<'a>(p: &'a str) -> (r: &'a str)
    ensures
        r@ == join_sender_spec(p@),
{
    let n = p.unicode_len();
    match find_sub(p, "(") {
        Some(ps) => {
            proof {
                reveal_strlit("(");
                lemma_first_match_from(p@, "("@, 0);
                assert(p@[ps as int] == p@.subrange(ps as int, ps + 1 as int)[0]);
            }
            let character = trim(p.substring_char(0, ps));
            let tail = p.substring_char(ps, n);
            proof {
                assert(tail@ =~= p@.skip(ps as int));
            }
            match find_sub(tail, ")") {
                Some(pe) => {
                    proof {
                        reveal_strlit(")");
                        lemma_first_match_from(tail@, ")"@, 0);
                        assert(tail@[pe as int] == tail@.subrange(pe as int, pe + 1 as int)[0]);
                        assert(tail@[0] == p@[ps as int]);
                    }
                    let account = trim(p.substring_char(ps + 1, ps + pe));
                    if account.unicode_len() > 0 {
                        strip_star(account)
                    } else {
                        character
                    }
                },
                None => character,
            }
        },
        None => p,
    }
}

/// Exec counterpart of `whisper_sender_spec`.
fn whisper_sender<'a>(p: &'a str) -> (r: &'a str)
    ensures
        r@ == whisper_sender_spec(p@),
{
    let n = p.unicode_len();
    match find_sub(p, "(") {
        Some(ps) => {
            proof {
                reveal_strlit("(");
                lemma_first_match_from(p@, "("@, 0);
                assert(p@[ps as int] == p@.subrange(ps as int, ps + 1 as int)[0]);
            }
            let tail = p.substring_char(ps, n);
            proof {
                assert(tail@ =~= p@.skip(ps as int));
            }
            match find_sub(tail, ")") {
                Some(pe) => {
                    proof {
                        reveal_strlit(")");
                        lemma_first_match_from(tail@, ")"@, 0);
                        assert(tail@[pe as int] == tail@.subrange(pe as int, pe + 1 as int)[0]);
                        assert(tail@[0] == p@[ps as int]);
                    }
                    strip_star(trim(p.substring_char(ps + 1, ps + pe)))
                },
                None => split_first_token(p),
            }
        },
        None => split_first_token(p),
    }
}

/// Exec counterpart of `is_friend_notice_spec`.
fn is_friend_notice(m: &str) -> (b: bool)
    ensures
        b == is_friend_notice_spec(m@),
{
    contains_str(m, "Your friend") && (contains_str(m, "has left Project Diablo 2") || contains_str(
        m,
        "has entered Project Diablo 2",
    ))
}

/// Exec counterpart of `item_name_spec`.
fn item_name_of(m: &str) -> (r: Option<String>)
    ensures
        opt_str_view(r) == item_name_spec(m@),
{
    let n = m.unicode_len();
    match find_sub(m, "your ") {
        Some(yp) => {
            proof {
                reveal_strlit("your ");
                lemma_first_match_from(m@, "your "@, 0);
            }
            let after_your = m.substring_char(yp + 5, n);
            proof {
                assert(after_your@ =~= m@.skip(yp + 5));
            }
            match find_sub(after_your, " listed") {
                Some(lp) => {
                    proof {
                        lemma_first_match_from(after_your@, " listed"@, 0);
                    }
                    Some(String::from_str(trim(after_your.substring_char(0, lp))))
                },
                None => None,
            }
        },
        None => None,
    }
}

/// Exec counterpart of `price_spec`.
fn price_of(m: &str) -> (r: Option<String>)
    ensures
        opt_str_view(r) == price_spec(m@),
{
    let n = m.unicode_len();
    match find_sub(m, "listed for ") {
        Some(lp) => {
            proof {
                reveal_strlit("listed for ");
                lemma_first_match_from(m@, "listed for "@, 0);
            }
            let after = m.substring_char(lp + 11, n);
            proof {
                assert(after@ =~= m@.skip(lp + 11));
            }
            let end = match find_sub(after, ".") {
                Some(d) => {
                    proof {
                        lemma_first_match_from(after@, "."@, 0);
                    }
                    d
                },
                None => after.unicode_len(),
            };
            Some(String::from_str(trim(after.substring_char(0, end))))
        },
        None => None,
    }
}

/// Exec counterpart of `whisper_body_spec`.
fn whisper_body<'a>(line: &'a str) -> (r: Option<(bool, &'a str)>)
    ensures
        match r {
            Some(b) => whisper_body_spec(line@) == Some((b.0, b.1@)),
            None => whisper_body_spec(line@) is None,
        },
{
    let n = line.unicode_len();
    match find_sub(line, "From ") {
        Some(fp) => {
            proof {
                reveal_strlit("From ");
                lemma_first_match_from(line@, "From "@, 0);
            }
            let after = line.substring_char(fp + 5, n);
            proof {
                assert(after@ =~= line@.skip(fp + 5));
            }
            Some((true, after))
        },
        None => match find_sub(line, "Sent to ") {
            Some(sp) => {
                proof {
                    reveal_strlit("Sent to ");
                    lemma_first_match_from(line@, "Sent to "@, 0);
                }
                let after = line.substring_char(sp + 8, n);
                proof {
                    assert(after@ =~= line@.skip(sp + 8));
                }
                Some((false, after))
            },
            None => None,
        },
    }
}

/// Splits a whisper body at the colon into trimmed sender part and
/// trimmed message.
fn split_at_colon<'a>(after: &'a str) -> (r: Option<(&'a str, &'a str)>)
    ensures
        match r {
            Some(p) => match first_match(after@, ":"@) {
                Some(cp) => p.0@ == trim_spec(after@.subrange(0, cp)) && p.1@ == trim_spec(
                    after@.skip(cp + 1),
                ),
                None => false,
            },
            None => first_match(after@, ":"@) is None,
        },
{
    let n = after.unicode_len();
    match find_sub(after, ":") {
        Some(cp) => {
            proof {
                reveal_strlit(":");
                lemma_first_match_from(after@, ":"@, 0);
            }
            let sender_part = trim(after.substring_char(0, cp));
            let message = trim(after.substring_char(cp + 1, n));
            proof {
                assert(after@.subrange(cp + 1, n as int) =~= after@.skip(cp + 1));
            }
            Some((sender_part, message))
        },
        None => None,
    }
}

/// Classifies one log line as a whisper or join event.
///
/// Returns exactly what the line grammar assigns to the line; lines
/// that match no documented shape yield nothing.
pub fn parse_whisper(line: &str) -> (r: Option<WhisperEvent>)
    ensures
        opt_whisper_view(r) == parse_whisper_spec(line@),
{
    let n = line.unicode_len();
    if starts_with(line, "4,") {
        if !contains_str(line, " joined our world") {
            return None;
        }
        proof {
            reveal_strlit("4,");
        }
        let after = line.substring_char(2, n);
        proof {
            assert(after@ =~= line@.skip(2));
        }
        match find_sub(after, " joined our world") {
            Some(jp) => {
                proof {
                    lemma_first_match_from(after@, " joined our world"@, 0);
                }
                let player_part = trim(after.substring_char(0, jp));
                let sender = join_sender(player_part);
                Some(
                    WhisperEvent {
                        is_trade: false,
                        from: String::from_str(sender),
                        message: String::from_str(after),
                        item_name: None,
                        is_join: true,
                        is_incoming: true,
                    },
                )
            },
            None => None,
        }
    } else if starts_with(line, "2,") {
        match whisper_body(line) {
            Some(body) => {
                let inc = body.0;
                match split_at_colon(body.1) {
                    Some(parts) => {
                        let sender_part = parts.0;
                        let message = parts.1;
                        if is_friend_notice(message) {
                            return None;
                        }
                        let sender = whisper_sender(sender_part);
                        let is_trade = starts_with(message, "Hi, I'm interested in your ");
                        let item_name = if is_trade {
                            item_name_of(message)
                        } else {
                            None
                        };
                        Some(
                            WhisperEvent {
                                is_trade,
                                from: String::from_str(sender),
                                message: String::from_str(message),
                                item_name,
                                is_join: false,
                                is_incoming: inc,
                            },
                        )
                    },
                    None => None,
                }
            },
            None => None,
        }
    } else {
        None
    }
}

/// What one line yields as a trade-message event, if anything.
pub open spec fn parse_trade_spec(line: Seq<char>) -> Option<TradeFields> {
    if !starts_with_spec(line, "2,"@) {
        None
    } else if !contains_sub(line, "Hi, I'm interested in your "@) {
        None
    } else {
        match whisper_body_spec(line) {
            None => None,
            Some((inc, after)) => match first_match(after, ":"@) {
                None => None,
                Some(cp) => {
                    let sender_part = trim_spec(after.subrange(0, cp));
                    let message = trim_spec(after.skip(cp + 1));
                    let names = trade_names_spec(sender_part);
                    Some(
                        TradeFields {
                            is_incoming: inc,
                            player_name: names.2,
                            account_name: names.1,
                            character_name: names.0,
                            message,
                            item_name: item_name_spec(message),
                            price: price_spec(message),
                        },
                    )
                },
            },
        }
    }
}

/// Exec counterpart of `trade_names_spec`; returns character name,
/// account name, and preferred display name.
fn trade_names<'a>(p: &'a str) -> (r: (&'a str, Option<&'a str>, &'a str))
    ensures
        trade_names_spec(p@) == (Some(r.0@), opt_ref_view(r.1), r.2@),
{
    let n = p.unicode_len();
    match find_sub(p, "(") {
        Some(ps) => {
            proof {
                reveal_strlit("(");
                lemma_first_match_from(p@, "("@, 0);
                assert(p@[ps as int] == p@.subrange(ps as int, ps + 1 as int)[0]);
            }
            let char_name = trim(p.substring_char(0, ps));
            let tail = p.substring_char(ps, n);
            proof {
                assert(tail@ =~= p@.skip(ps as int));
            }
            match find_sub(tail, ")") {
                Some(pe) => {
                    proof {
                        reveal_strlit(")");
                        lemma_first_match_from(tail@, ")"@, 0);
                        assert(tail@[pe as int] == tail@.subrange(pe as int, pe + 1 as int)[0]);
                        assert(tail@[0] == p@[ps as int]);
                    }
                    let acc = strip_star(trim(p.substring_char(ps + 1, ps + pe)));
                    (char_name, Some(acc), acc)
                },
                None => (char_name, None, char_name),
            }
        },
        None => {
            let c = split_first_token(p);
            (c, None, c)
        },
    }
}

pub open spec fn opt_ref_view(o: Option<&str>) -> Option<Seq<char>> {
    match o {
        Some(s) => Some(s@),
        None => None,
    }
}

/// Classifies one log line as a trade message.
///
/// Returns exactly what the line grammar assigns to the line: a record
/// with the sender names, the quoted item and the quoted price, or
/// nothing when the line is not a trade whisper.
pub fn parse_trade_message(line: &str) -> (r: Option<TradeMessageEvent>)
    ensures
        opt_trade_view(r) == parse_trade_spec(line@),
{
    if !starts_with(line, "2,") {
        return None;
    }
    if !contains_str(line, "Hi, I'm interested in your ") {
        return None;
    }
    match whisper_body(line) {
        Some(body) => {
            let inc = body.0;
            match split_at_colon(body.1) {
                Some(parts) => {
                    let sender_part = parts.0;
                    let message = parts.1;
                    let names = trade_names(sender_part);
                    let item_name = item_name_of(message);
                    let price = price_of(message);
                    Some(
                        TradeMessageEvent {
                            is_incoming: inc,
                            player_name: String::from_str(names.2),
                            account_name: match names.1 {
                                Some(a) => Some(String::from_str(a)),
                                None => None,
                            },
                            character_name: Some(String::from_str(names.0)),
                            message: String::from_str(message),
                            item_name,
                            price,
                        },
                    )
                },
                None => None,
            }
        },
        None => None,
    }
}

} // verus!
