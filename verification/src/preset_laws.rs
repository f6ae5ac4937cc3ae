//! What holds of preset lists: joining and splitting are inverse, a list
//! of valid keys parses to the presets it names, and a list that names
//! both hostname modes is refused.

use vstd::prelude::*;
use crate::presets::{
    join_commas, key_texts, split_commas, split_from, with_key_if, MatchHostname,
    PresetCombination, PresetError, PresetKey,
};

verus! {

/// Whether `t` holds no comma.
pub open spec fn comma_free(t: Seq<char>) -> bool {
    forall|i: int| 0 <= i < t.len() ==> t[i] != ','
}

/// Whether no two of `keys` select a hostname mode.
pub open spec fn at_most_one_hostname(keys: Seq<PresetKey>) -> bool {
    forall|i: int, j: int|
        0 <= i < j < keys.len() ==> !(#[trigger] keys[i].is_hostname() && #[trigger] keys[
            j
        ].is_hostname())
}

/// The combination that has exactly the presets on that `keys` names.
pub open spec fn combination_of(keys: Seq<PresetKey>) -> PresetCombination {
    PresetCombination {
        exact_user_id: keys.contains(PresetKey::ExactUserId),
        exact_ppath: keys.contains(PresetKey::ExactPpath),
        exact_dst_ip: keys.contains(PresetKey::ExactDstIp),
        exact_dst_port: keys.contains(PresetKey::ExactDstPort),
        exact_protocol: keys.contains(PresetKey::ExactProtocol),
        match_hostname: if keys.contains(PresetKey::ExactHostname) {
            MatchHostname::Exact
        } else if keys.contains(PresetKey::AnySubdomainHostname) {
            MatchHostname::AnySubdomain
        } else {
            MatchHostname::Disabled
        },
    }
}

/// Every key is written without a comma, and no two keys are written
/// alike: reading a key's text gives the key back.
pub proof fn lemma_key_texts(key: PresetKey)
    ensures
        comma_free(key.text()),
        key.text().len() > 0,
        PresetKey::from_text(key.text()) == Some(key),
{
    reveal_strlit("exact_user_id");
    reveal_strlit("exact_ppath");
    reveal_strlit("exact_dst_ip");
    reveal_strlit("exact_dst_port");
    reveal_strlit("exact_protocol");
    reveal_strlit("exact_hostname");
    reveal_strlit("any_subdomain_hostname");
    assert("exact_protocol"@[6] == 'p');
    assert("exact_hostname"@[6] == 'h');
}

/// A piece without a comma in front of a text is read into the current
/// piece as a whole.
proof fn lemma_split_piece(cur: Seq<char>, piece: Seq<char>, rest: Seq<char>)
    requires
        comma_free(piece),
    ensures
        split_from(cur, piece + rest) == split_from(cur + piece, rest),
    decreases piece.len(),
{
    if piece.len() > 0 {
        assert((piece + rest).drop_first() =~= piece.drop_first() + rest);
        lemma_split_piece(cur.push(piece[0]), piece.drop_first(), rest);
        assert(cur.push(piece[0]) + piece.drop_first() =~= cur + piece);
    }
}

/// Splitting undoes joining: pieces without commas, at least one of them,
/// come back as they were.
pub proof fn lemma_split_join(pieces: Seq<Seq<char>>)
    requires
        pieces.len() > 0,
        forall|i: int| 0 <= i < pieces.len() ==> comma_free(#[trigger] pieces[i]),
    ensures
        split_commas(join_commas(pieces)) == pieces,
    decreases pieces.len(),
{
    let first = pieces[0];
    let none = Seq::<char>::empty();
    if pieces.len() == 1 {
        lemma_split_piece(none, first, none);
    } else {
        let tail = pieces.drop_first();
        let rest = seq![','] + join_commas(tail);
        assert(join_commas(pieces) =~= first + rest);
        lemma_split_piece(none, first, rest);
        assert(rest.drop_first() =~= join_commas(tail));
        lemma_split_join(tail);
    }
}

/// What is read from `rest` with the piece `cur` begun holds no comma in
/// any piece, and joins back to `cur` and `rest`.
proof fn lemma_join_split_from(cur: Seq<char>, rest: Seq<char>)
    requires
        comma_free(cur),
    ensures
        split_from(cur, rest).len() > 0,
        forall|i: int|
            0 <= i < split_from(cur, rest).len() ==> comma_free(#[trigger] split_from(cur, rest)[i]),
        join_commas(split_from(cur, rest)) == cur + rest,
    decreases rest.len(),
{
    let none = Seq::<char>::empty();
    if rest.len() > 0 {
        if rest[0] == ',' {
            let tail = split_from(none, rest.drop_first());
            lemma_join_split_from(none, rest.drop_first());
            assert((seq![cur] + tail).drop_first() =~= tail);
        } else {
            lemma_join_split_from(cur.push(rest[0]), rest.drop_first());
        }
    }
}

/// Joining undoes splitting: every text is the join of its pieces, of
/// which there is at least one, and none of which holds a comma. With
/// [`lemma_split_join`], the pieces of a text are the one way to write it
/// as such a join.
pub proof fn lemma_join_split(s: Seq<char>)
    ensures
        split_commas(s).len() > 0,
        forall|i: int|
            0 <= i < split_commas(s).len() ==> comma_free(#[trigger] split_commas(s)[i]),
        join_commas(split_commas(s)) == s,
{
    lemma_join_split_from(Seq::empty(), s);
}

/// `into` with the presets of `keys` on as well. Of two hostname modes,
/// that of `into` stands.
pub open spec fn merged(into: PresetCombination, keys: Seq<PresetKey>) -> PresetCombination {
    let added = combination_of(keys);
    PresetCombination {
        exact_user_id: into.exact_user_id || added.exact_user_id,
        exact_ppath: into.exact_ppath || added.exact_ppath,
        exact_dst_ip: into.exact_dst_ip || added.exact_dst_ip,
        exact_dst_port: into.exact_dst_port || added.exact_dst_port,
        exact_protocol: into.exact_protocol || added.exact_protocol,
        match_hostname: if into.match_hostname != MatchHostname::Disabled {
            into.match_hostname
        } else {
            added.match_hostname
        },
    }
}

/// A sequence holds what its first element is and what the rest holds.
proof fn lemma_first_or_rest<A>(s: Seq<A>, x: A)
    requires
        s.len() > 0,
    ensures
        s.contains(x) <==> s[0] == x || s.drop_first().contains(x),
{
    let rest = s.drop_first();
    if s.contains(x) {
        let i = choose|i: int| 0 <= i < s.len() && s[i] == x;
        if i > 0 {
            assert(rest[i - 1] == x);
        }
    }
    if rest.contains(x) {
        let i = choose|i: int| 0 <= i < rest.len() && rest[i] == x;
        assert(s[i + 1] == x);
    }
}

/// Valid keys, with at most one hostname key among them and none at all
/// where a hostname mode is set, are all accepted, and turn their presets
/// on.
proof fn lemma_with_valid_keys(into: PresetCombination, keys: Seq<PresetKey>)
    requires
        at_most_one_hostname(keys),
        into.match_hostname != MatchHostname::Disabled ==> forall|i: int|
            0 <= i < keys.len() ==> !(#[trigger] keys[i]).is_hostname(),
    ensures
        into.with_all(key_texts(keys)) == Ok::<PresetCombination, PresetError>(
            merged(into, keys),
        ),
    decreases keys.len(),
{
    if keys.len() > 0 {
        let key = keys[0];
        let tail = keys.drop_first();
        lemma_key_texts(key);
        assert(key_texts(keys).drop_first() =~= key_texts(tail));
        let next = into.with_key(key)->Ok_0;
        // No key of the tail selects a hostname mode if `key` does, or if
        // one was set before.
        assert forall|i: int| 0 <= i < tail.len() && key.is_hostname() implies !(
        #[trigger] tail[i]).is_hostname() by {
            assert(tail[i] == keys[i + 1]);
            assert(keys[0].is_hostname());
        }
        assert forall|i: int| 0 <= i < tail.len() implies #[trigger] tail[i] == keys[i + 1] by {}
        lemma_with_valid_keys(next, tail);
        assert forall|k: PresetKey| keys.contains(k) <==> k == key || tail.contains(k) by {
            lemma_first_or_rest(keys, k);
        }
    }
}

/// A list of valid keys joined by commas, with at least one key and at
/// most one hostname key, parses to the combination that has exactly the
/// named presets on. Naming a preset twice changes nothing.
pub proof fn lemma_parse_joined_keys(keys: Seq<PresetKey>)
    requires
        keys.len() > 0,
        at_most_one_hostname(keys),
    ensures
        PresetCombination::parse(join_commas(key_texts(keys))) == Ok::<
            PresetCombination,
            PresetError,
        >(combination_of(keys)),
{
    let pieces = key_texts(keys);
    assert forall|i: int| 0 <= i < pieces.len() implies comma_free(#[trigger] pieces[i]) by {
        lemma_key_texts(keys[i]);
    }
    lemma_split_join(pieces);
    lemma_with_valid_keys(PresetCombination::none(), keys);
}

/// What `with_key_if` does to membership.
proof fn lemma_with_key_if(keys: Seq<PresetKey>, on: bool, key: PresetKey)
    ensures
        forall|k: PresetKey|
            #[trigger] with_key_if(keys, on, key).contains(k) <==> keys.contains(k) || (on && k
                == key),
        forall|i: int| 0 <= i < keys.len() ==> #[trigger] with_key_if(keys, on, key)[i] == keys[i],
        with_key_if(keys, on, key).len() == keys.len() + if on {
            1int
        } else {
            0int
        },
        on ==> with_key_if(keys, on, key).last() == key,
{
    let next = with_key_if(keys, on, key);
    assert forall|k: PresetKey| #[trigger]
        next.contains(k) <==> keys.contains(k) || (on && k == key) by {
        if keys.contains(k) {
            let i = choose|i: int| 0 <= i < keys.len() && keys[i] == k;
            assert(next[i] == k);
        }
        if on && k == key {
            assert(next.last() == k);
        }
    }
}

/// The keys of a combination name exactly its presets, with at most one
/// hostname key among them.
pub proof fn lemma_keys_of_combination(p: PresetCombination)
    ensures
        combination_of(p.keys()) == p,
        at_most_one_hostname(p.keys()),
        p.keys().len() <= 6,
        p != PresetCombination::none() ==> p.keys().len() > 0,
{
    let k0 = Seq::<PresetKey>::empty();
    let k1 = with_key_if(k0, p.exact_user_id, PresetKey::ExactUserId);
    let k2 = with_key_if(k1, p.exact_ppath, PresetKey::ExactPpath);
    let k3 = with_key_if(k2, p.exact_dst_ip, PresetKey::ExactDstIp);
    let k4 = with_key_if(k3, p.exact_dst_port, PresetKey::ExactDstPort);
    let k5 = with_key_if(k4, p.exact_protocol, PresetKey::ExactProtocol);
    let k6 = with_key_if(k5, p.match_hostname == MatchHostname::Exact, PresetKey::ExactHostname);
    let k7 = with_key_if(
        k6,
        p.match_hostname == MatchHostname::AnySubdomain,
        PresetKey::AnySubdomainHostname,
    );
    lemma_with_key_if(k0, p.exact_user_id, PresetKey::ExactUserId);
    lemma_with_key_if(k1, p.exact_ppath, PresetKey::ExactPpath);
    lemma_with_key_if(k2, p.exact_dst_ip, PresetKey::ExactDstIp);
    lemma_with_key_if(k3, p.exact_dst_port, PresetKey::ExactDstPort);
    lemma_with_key_if(k4, p.exact_protocol, PresetKey::ExactProtocol);
    lemma_with_key_if(k5, p.match_hostname == MatchHostname::Exact, PresetKey::ExactHostname);
    lemma_with_key_if(
        k6,
        p.match_hostname == MatchHostname::AnySubdomain,
        PresetKey::AnySubdomainHostname,
    );
    assert forall|k: PresetKey| !k0.contains(k) by {}
    assert forall|i: int, j: int| 0 <= i < j < k7.len() implies !(#[trigger] k7[i].is_hostname()
        && #[trigger] k7[j].is_hostname()) by {
        if k7[i].is_hostname() {
            assert(i < k5.len() ==> k5.contains(k7[i]));
        }
    }
}

/// Round trip: a combination with at least one preset on, written as a
/// preset list and parsed again, is the same combination.
pub proof fn lemma_key_list_round_trip(p: PresetCombination)
    requires
        p != PresetCombination::none(),
    ensures
        PresetCombination::parse(p.key_list()) == Ok::<PresetCombination, PresetError>(p),
{
    lemma_keys_of_combination(p);
    lemma_parse_joined_keys(p.keys());
}

/// Re-deriving the presets is idempotent: what a list of valid keys parses
/// to, written as a preset list and parsed again, does not change.
pub proof fn lemma_reparse_is_idempotent(keys: Seq<PresetKey>)
    requires
        keys.len() > 0,
        at_most_one_hostname(keys),
    ensures
        PresetCombination::parse(join_commas(key_texts(keys))) matches Ok(p)
            && PresetCombination::parse(p.key_list()) == Ok::<PresetCombination, PresetError>(p),
{
    lemma_parse_joined_keys(keys);
    let p = combination_of(keys);
    lemma_key_list_round_trip(p);
}

/// Once a hostname mode is set, pieces that hold a hostname key are
/// refused.
proof fn lemma_second_hostname_fails(into: PresetCombination, pieces: Seq<Seq<char>>)
    requires
        into.match_hostname != MatchHostname::Disabled,
        pieces.contains(PresetKey::ExactHostname.text()) || pieces.contains(
            PresetKey::AnySubdomainHostname.text(),
        ),
    ensures
        into.with_all(pieces) is Err,
    decreases pieces.len(),
{
    lemma_key_texts(PresetKey::ExactHostname);
    lemma_key_texts(PresetKey::AnySubdomainHostname);
    lemma_first_or_rest(pieces, PresetKey::ExactHostname.text());
    lemma_first_or_rest(pieces, PresetKey::AnySubdomainHostname.text());
    if let Ok(next) = into.with_text(pieces[0]) {
        lemma_second_hostname_fails(next, pieces.drop_first());
    }
}

/// Pieces that hold both hostname keys are refused, whatever else they
/// hold and whatever is set before them.
proof fn lemma_both_hostname_keys_fail(into: PresetCombination, pieces: Seq<Seq<char>>)
    requires
        pieces.contains(PresetKey::ExactHostname.text()),
        pieces.contains(PresetKey::AnySubdomainHostname.text()),
    ensures
        into.with_all(pieces) is Err,
    decreases pieces.len(),
{
    lemma_key_texts(PresetKey::ExactHostname);
    lemma_key_texts(PresetKey::AnySubdomainHostname);
    lemma_first_or_rest(pieces, PresetKey::ExactHostname.text());
    lemma_first_or_rest(pieces, PresetKey::AnySubdomainHostname.text());
    if let Ok(next) = into.with_text(pieces[0]) {
        if PresetKey::from_text(pieces[0]) matches Some(key) && key.is_hostname() {
            lemma_second_hostname_fails(next, pieces.drop_first());
        } else {
            lemma_both_hostname_keys_fail(next, pieces.drop_first());
        }
    }
}

/// A preset list that names both `exact_hostname` and
/// `any_subdomain_hostname` never parses, whatever else it holds.
pub proof fn lemma_conflicting_hostname_keys_fail(s: Seq<char>)
    requires
        split_commas(s).contains(PresetKey::ExactHostname.text()),
        split_commas(s).contains(PresetKey::AnySubdomainHostname.text()),
    ensures
        PresetCombination::parse(s) is Err,
{
    lemma_both_hostname_keys_fail(PresetCombination::none(), split_commas(s));
}

} // verus!
