//! Presets: which attributes of a connection a generated rule matches
//! on, and the comma-delimited lists that name them.

use vstd::prelude::*;
use crate::text::same_text;
use std::str::FromStr;

verus! {

/// Hostname matching is not binary: it is off, exact, or covers every
/// subdomain as well.
#[derive(Clone, Copy, Debug, PartialEq, Eq, Structural)]
pub enum MatchHostname {
    Disabled,
    Exact,
    AnySubdomain,
}

impl Default for MatchHostname {
    fn default() -> (m: MatchHostname)
        ensures
            m == MatchHostname::Disabled,
    {
        MatchHostname::Disabled
    }
}

/// Which connection attributes a generated rule matches on.
#[derive(Clone, Copy, Debug, PartialEq, Eq, Structural)]
pub struct PresetCombination {
    pub exact_user_id: bool,
    pub exact_ppath: bool,
    pub exact_dst_ip: bool,
    pub exact_dst_port: bool,
    pub exact_protocol: bool,
    pub match_hostname: MatchHostname,
}

impl PresetCombination {
    /// The combination with every preset off.
    pub open spec fn none() -> PresetCombination {
        PresetCombination {
            exact_user_id: false,
            exact_ppath: false,
            exact_dst_ip: false,
            exact_dst_port: false,
            exact_protocol: false,
            match_hostname: MatchHostname::Disabled,
        }
    }
}

impl Default for PresetCombination {
    fn default() -> (p: PresetCombination)
        ensures
            p == PresetCombination::none(),
    {
        PresetCombination {
            exact_user_id: false,
            exact_ppath: false,
            exact_dst_ip: false,
            exact_dst_port: false,
            exact_protocol: false,
            match_hostname: MatchHostname::Disabled,
        }
    }
}

/// One key of a preset list.
#[derive(Clone, Copy, Debug, PartialEq, Eq, Structural)]
pub enum PresetKey {
    ExactUserId,
    ExactPpath,
    ExactDstIp,
    ExactDstPort,
    ExactProtocol,
    ExactHostname,
    AnySubdomainHostname,
}

impl PresetKey {
    /// The key as it is written in a preset list.
    pub open spec fn text(self) -> Seq<char> {
        match self {
            PresetKey::ExactUserId => "exact_user_id"@,
            PresetKey::ExactPpath => "exact_ppath"@,
            PresetKey::ExactDstIp => "exact_dst_ip"@,
            PresetKey::ExactDstPort => "exact_dst_port"@,
            PresetKey::ExactProtocol => "exact_protocol"@,
            PresetKey::ExactHostname => "exact_hostname"@,
            PresetKey::AnySubdomainHostname => "any_subdomain_hostname"@,
        }
    }

    /// The key that `t` spells, if any.
    pub open spec fn from_text(t: Seq<char>) -> Option<PresetKey> {
        if t == PresetKey::ExactUserId.text() {
            Some(PresetKey::ExactUserId)
        } else if t == PresetKey::ExactPpath.text() {
            Some(PresetKey::ExactPpath)
        } else if t == PresetKey::ExactDstIp.text() {
            Some(PresetKey::ExactDstIp)
        } else if t == PresetKey::ExactDstPort.text() {
            Some(PresetKey::ExactDstPort)
        } else if t == PresetKey::ExactProtocol.text() {
            Some(PresetKey::ExactProtocol)
        } else if t == PresetKey::ExactHostname.text() {
            Some(PresetKey::ExactHostname)
        } else if t == PresetKey::AnySubdomainHostname.text() {
            Some(PresetKey::AnySubdomainHostname)
        } else {
            None
        }
    }

    /// Whether the key selects a hostname mode.
    pub open spec fn is_hostname(self) -> bool {
        self == PresetKey::ExactHostname || self == PresetKey::AnySubdomainHostname
    }

    /// The key as it is written in a preset list.
    pub fn get_str(&self) -> (s: &'static str)
        ensures
            s@ == self.text(),
    {
        match self {
            PresetKey::ExactUserId => "exact_user_id",
            PresetKey::ExactPpath => "exact_ppath",
            PresetKey::ExactDstIp => "exact_dst_ip",
            PresetKey::ExactDstPort => "exact_dst_port",
            PresetKey::ExactProtocol => "exact_protocol",
            PresetKey::ExactHostname => "exact_hostname",
            PresetKey::AnySubdomainHostname => "any_subdomain_hostname",
        }
    }

    /// Reads one key of a preset list.
    pub fn lookup(key: &str) -> (k: Option<PresetKey>)
        ensures
            k == PresetKey::from_text(key@),
    {
        if same_text(key, "exact_user_id") {
            Some(PresetKey::ExactUserId)
        } else if same_text(key, "exact_ppath") {
            Some(PresetKey::ExactPpath)
        } else if same_text(key, "exact_dst_ip") {
            Some(PresetKey::ExactDstIp)
        } else if same_text(key, "exact_dst_port") {
            Some(PresetKey::ExactDstPort)
        } else if same_text(key, "exact_protocol") {
            Some(PresetKey::ExactProtocol)
        } else if same_text(key, "exact_hostname") {
            Some(PresetKey::ExactHostname)
        } else if same_text(key, "any_subdomain_hostname") {
            Some(PresetKey::AnySubdomainHostname)
        } else {
            None
        }
    }
}

/// Why a preset list is refused.
pub ghost enum PresetError {
    /// A key of the list is not a preset.
    UnknownKey(Seq<char>),
    /// The list selects a hostname mode twice.
    ConflictingHostname,
}

impl PresetError {
    /// The message that reports the error.
    pub open spec fn message(self) -> Seq<char> {
        match self {
            PresetError::UnknownKey(key) => "Unknown preset key: "@ + key,
            PresetError::ConflictingHostname => "Conflicting hostname matching presets"@,
        }
    }
}

/// The pieces of `rest` between its commas, the first of them with `cur`
/// in front. A text without a comma is one piece, the empty text too.
pub open spec fn split_from(cur: Seq<char>, rest: Seq<char>) -> Seq<Seq<char>>
    decreases rest.len(),
{
    if rest.len() == 0 {
        seq![cur]
    } else if rest[0] == ',' {
        seq![cur] + split_from(Seq::empty(), rest.drop_first())
    } else {
        split_from(cur.push(rest[0]), rest.drop_first())
    }
}

/// The pieces of `s` between its commas.
pub open spec fn split_commas(s: Seq<char>) -> Seq<Seq<char>> {
    split_from(Seq::empty(), s)
}

/// The pieces joined by commas: the inverse of [`split_commas`] on pieces
/// that hold no comma.
pub open spec fn join_commas(pieces: Seq<Seq<char>>) -> Seq<char>
    decreases pieces.len(),
{
    if pieces.len() == 0 {
        Seq::empty()
    } else if pieces.len() == 1 {
        pieces[0]
    } else {
        pieces[0] + seq![','] + join_commas(pieces.drop_first())
    }
}

/// The keys as they are written, in order.
pub open spec fn key_texts(keys: Seq<PresetKey>) -> Seq<Seq<char>> {
    Seq::new(keys.len(), |i: int| keys[i].text())
}

/// `keys`, followed by `key` if `on`.
pub open spec fn with_key_if(keys: Seq<PresetKey>, on: bool, key: PresetKey) -> Seq<PresetKey> {
    if on {
        keys.push(key)
    } else {
        keys
    }
}

impl PresetCombination {
    /// The combination after one more key. A hostname key is refused once
    /// a hostname mode is set.
    pub open spec fn with_key(self, key: PresetKey) -> Result<PresetCombination, PresetError> {
        match key {
            PresetKey::ExactUserId => Ok(PresetCombination { exact_user_id: true, ..self }),
            PresetKey::ExactPpath => Ok(PresetCombination { exact_ppath: true, ..self }),
            PresetKey::ExactDstIp => Ok(PresetCombination { exact_dst_ip: true, ..self }),
            PresetKey::ExactDstPort => Ok(PresetCombination { exact_dst_port: true, ..self }),
            PresetKey::ExactProtocol => Ok(PresetCombination { exact_protocol: true, ..self }),
            PresetKey::ExactHostname => if self.match_hostname == MatchHostname::Disabled {
                Ok(PresetCombination { match_hostname: MatchHostname::Exact, ..self })
            } else {
                Err(PresetError::ConflictingHostname)
            },
            PresetKey::AnySubdomainHostname => if self.match_hostname == MatchHostname::Disabled {
                Ok(PresetCombination { match_hostname: MatchHostname::AnySubdomain, ..self })
            } else {
                Err(PresetError::ConflictingHostname)
            },
        }
    }

    /// The combination after one more piece of a preset list.
    pub open spec fn with_text(self, t: Seq<char>) -> Result<PresetCombination, PresetError> {
        match PresetKey::from_text(t) {
            Some(key) => self.with_key(key),
            None => Err(PresetError::UnknownKey(t)),
        }
    }

    /// The combination after the pieces `keys`, taken from the left; the
    /// first piece that is refused decides the error.
    pub open spec fn with_all(self, keys: Seq<Seq<char>>) -> Result<
        PresetCombination,
        PresetError,
    >
        decreases keys.len(),
    {
        if keys.len() == 0 {
            Ok(self)
        } else {
            match self.with_text(keys[0]) {
                Ok(next) => next.with_all(keys.drop_first()),
                Err(e) => Err(e),
            }
        }
    }

    /// What a comma-delimited preset list stands for.
    pub open spec fn parse(s: Seq<char>) -> Result<PresetCombination, PresetError> {
        PresetCombination::none().with_all(split_commas(s))
    }

    /// The keys of the presets that are on, each once, in the order user
    /// id, process path, destination ip, destination port, protocol,
    /// hostname.
    pub open spec fn keys(self) -> Seq<PresetKey> {
        let keys = Seq::empty();
        let keys = with_key_if(keys, self.exact_user_id, PresetKey::ExactUserId);
        let keys = with_key_if(keys, self.exact_ppath, PresetKey::ExactPpath);
        let keys = with_key_if(keys, self.exact_dst_ip, PresetKey::ExactDstIp);
        let keys = with_key_if(keys, self.exact_dst_port, PresetKey::ExactDstPort);
        let keys = with_key_if(keys, self.exact_protocol, PresetKey::ExactProtocol);
        let keys = with_key_if(
            keys,
            self.match_hostname == MatchHostname::Exact,
            PresetKey::ExactHostname,
        );
        with_key_if(
            keys,
            self.match_hostname == MatchHostname::AnySubdomain,
            PresetKey::AnySubdomainHostname,
        )
    }

    /// The preset list that stands for this combination.
    pub open spec fn key_list(self) -> Seq<char> {
        join_commas(key_texts(self.keys()))
    }

    /// The keys of the presets that are on, in their fixed order.
    pub fn enabled_keys(&self) -> (keys: Vec<PresetKey>)
        ensures
            keys@ == self.keys(),
    {
        let mut keys: Vec<PresetKey> = Vec::new();
        if self.exact_user_id {
            keys.push(PresetKey::ExactUserId);
        }
        if self.exact_ppath {
            keys.push(PresetKey::ExactPpath);
        }
        if self.exact_dst_ip {
            keys.push(PresetKey::ExactDstIp);
        }
        if self.exact_dst_port {
            keys.push(PresetKey::ExactDstPort);
        }
        if self.exact_protocol {
            keys.push(PresetKey::ExactProtocol);
        }
        match self.match_hostname {
            MatchHostname::Disabled => {},
            MatchHostname::Exact => {
                keys.push(PresetKey::ExactHostname);
            },
            MatchHostname::AnySubdomain => {
                keys.push(PresetKey::AnySubdomainHostname);
            },
        }
        keys
    }

    /// Writes the combination as a preset list: the keys of the presets
    /// that are on, joined by commas.
    pub fn to_key_list(&self) -> (list: String)
        ensures
            list@ == self.key_list(),
    {
        let keys = self.enabled_keys();
        let mut list = String::new();
        let mut i: usize = 0;
        while i < keys.len()
            invariant
                i <= keys.len(),
                list@ == join_commas(key_texts(keys@.take(i as int))),
            decreases keys.len() - i,
        {
            proof {
                lemma_join_push(key_texts(keys@.take(i as int)), keys@[i as int].text());
                assert(key_texts(keys@.take(i as int)).push(keys@[i as int].text()) =~= key_texts(
                    keys@.take(i + 1),
                ));
            }
            if i > 0 {
                list.push(',');
            }
            list.append(keys[i].get_str());
            i += 1;
        }
        assert(keys@.take(keys@.len() as int) =~= keys@);
        list
    }

    /// Adds the preset that `key` spells.
    fn add_key(self, key: &str) -> (res: Result<PresetCombination, String>)
        ensures
            match res {
                Ok(p) => self.with_text(key@) == Ok::<PresetCombination, PresetError>(p),
                Err(msg) => self.with_text(key@) is Err && msg@ == self.with_text(
                    key@,
                )->Err_0.message(),
            },
    {
        let mut res = self;
        match PresetKey::lookup(key) {
            Some(PresetKey::ExactUserId) => {
                res.exact_user_id = true;
            },
            Some(PresetKey::ExactPpath) => {
                res.exact_ppath = true;
            },
            Some(PresetKey::ExactDstIp) => {
                res.exact_dst_ip = true;
            },
            Some(PresetKey::ExactDstPort) => {
                res.exact_dst_port = true;
            },
            Some(PresetKey::ExactProtocol) => {
                res.exact_protocol = true;
            },
            Some(PresetKey::ExactHostname) => {
                if res.match_hostname != MatchHostname::Disabled {
                    return Err("Conflicting hostname matching presets".to_owned());
                }
                res.match_hostname = MatchHostname::Exact;
            },
            Some(PresetKey::AnySubdomainHostname) => {
                if res.match_hostname != MatchHostname::Disabled {
                    return Err("Conflicting hostname matching presets".to_owned());
                }
                res.match_hostname = MatchHostname::AnySubdomain;
            },
            None => {
                let mut msg = "Unknown preset key: ".to_owned();
                msg.append(key);
                return Err(msg);
            },
        }
        Ok(res)
    }
}

/// Joining one more piece: a comma and the piece, or the piece alone where
/// it is the first.
pub proof fn lemma_join_push(pieces: Seq<Seq<char>>, piece: Seq<char>)
    ensures
        join_commas(pieces.push(piece)) == if pieces.len() == 0 {
            piece
        } else {
            join_commas(pieces).push(',') + piece
        },
    decreases pieces.len(),
{
    let all = pieces.push(piece);
    if pieces.len() > 0 {
        assert(all.drop_first() =~= pieces.drop_first().push(piece));
        lemma_join_push(pieces.drop_first(), piece);
    }
}

impl FromStr for PresetCombination {
    type Err = String;

    /// Parses a list of comma-delimited preset keys. A key that is no
    /// preset and a second hostname key are errors, reported by their
    /// message.
    fn from_str(s: &str) -> (res: Result<PresetCombination, String>)
        ensures
            match res {
                Ok(p) => PresetCombination::parse(s@) == Ok::<PresetCombination, PresetError>(p),
                Err(msg) => PresetCombination::parse(s@) is Err && msg@ == PresetCombination::parse(
                    s@,
                )->Err_0.message(),
            },
    {
        broadcast use vstd::string::axiom_spec_iter;

        let mut res = PresetCombination::default();
        let mut key = String::new();
        assert(s@.skip(0) =~= s@);
        for c in it: s.chars()
            invariant
                it.seq() == s@,
                PresetCombination::parse(s@) == res.with_all(
                    split_from(key@, s@.skip(it.index())),
                ),
        {
            let ghost i = it.index();
            assert(s@.skip(i).drop_first() =~= s@.skip(i + 1));
            if c == ',' {
                let ghost tail = split_from(Seq::empty(), s@.skip(i + 1));
                assert((seq![key@] + tail).drop_first() =~= tail);
                match res.add_key(key.as_str()) {
                    Ok(next) => {
                        res = next;
                        key = String::new();
                    },
                    Err(msg) => {
                        return Err(msg);
                    },
                }
            } else {
                key.push(c);
            }
        }
        proof {
            let last = seq![key@];
            assert(res.with_all(last) == res.with_text(key@)) by {
                reveal_with_fuel(PresetCombination::with_all, 2);
            }
        }
        res.add_key(key.as_str())
    }
}

} // verus!
