//! What a box tells about itself: its algorithm, the derivation path of its
//! key, and a bag of options held as a JSON object.

use vstd::prelude::*;

verus! {

/// A JSON value of `serde_json`, carried and never looked into.
#[verifier::external_type_specification]
#[verifier::external_body]
pub struct ExJsonValue(serde_json::Value);

/// The JSON object of `serde_json`: a map from names to JSON values.
#[verifier::external_type_specification]
#[verifier::external_body]
#[verifier::reject_recursive_types(K)]
#[verifier::reject_recursive_types(V)]
pub struct ExJsonMap<K, V>(serde_json::Map<K, V>);

/// What a JSON object holds: under each of its names the text of the value,
/// where the value is a JSON string, and `None` where it is of another kind.
pub uninterp spec fn json_entries(m: serde_json::Map<String, serde_json::Value>) -> Map<
    Seq<char>,
    Option<Seq<char>>,
>;

/// The contents of an object without entries.
pub open spec fn no_entries() -> Map<Seq<char>, Option<Seq<char>>> {
    Map::empty()
}

/// `serde_json::Map::new`: the object without entries.
#[verifier::external_body]
fn json_object() -> (object: serde_json::Map<String, serde_json::Value>)
    ensures
        json_entries(object) == no_entries(),
{
    serde_json::Map::new()
}

/// `serde_json::Map::insert` with a JSON string as the value: afterwards the
/// object holds `text` under `name`, in place of what stood there, and its
/// other entries as before.
#[verifier::external_body]
fn json_put(m: &mut serde_json::Map<String, serde_json::Value>, name: &str, text: &str)
    ensures
        json_entries(*final(m)) == json_entries(*old(m)).insert(name@, Some(text@)),
{
    m.insert(String::from(name), serde_json::Value::String(String::from(text)));
}

/// `serde_json::Map::get`, with `serde_json::Value::as_str` on what it finds:
/// the text under `name` where the object holds a JSON string there.
#[verifier::external_body]
fn json_text(m: &serde_json::Map<String, serde_json::Value>, name: &str) -> (r: Option<String>)
    ensures
        match r {
            Some(text) => json_entries(*m).contains_key(name@) && json_entries(*m)[name@] == Some(
                text@,
            ),
            None => !json_entries(*m).contains_key(name@) || json_entries(*m)[name@] is None,
        },
{
    let found: Option<&str> = m.get(name).and_then(serde_json::Value::as_str);
    found.map(String::from)
}

/// The derivation path under which the terminal's keys are made.
pub const HD_PATH: &'static str = "m/44'/396'/0'/0/0";

/// The derivation path as a sequence of characters.
pub open spec fn hd_path() -> Seq<char> {
    HD_PATH@
}

/// What a box tells about itself. It holds no key of the box's owner.
#[derive(Debug)]
pub struct BoxInfo {
    /// The derivation path of the key.
    pub hdpath: String,
    /// The name of the cipher.
    pub algorithm: String,
    /// The cipher's options, a JSON object of strings.
    pub options: serde_json::Map<String, serde_json::Value>,
    /// The public key of the box's owner, where the box discloses one.
    pub public: Option<String>,
}

/// A `BoxInfo` as plain values.
pub struct BoxInfoView {
    pub hdpath: Seq<char>,
    pub algorithm: Seq<char>,
    pub options: Map<Seq<char>, Option<Seq<char>>>,
    pub public: Option<Seq<char>>,
}

impl View for BoxInfo {
    type V = BoxInfoView;

    open spec fn view(&self) -> BoxInfoView {
        BoxInfoView {
            hdpath: self.hdpath@,
            algorithm: self.algorithm@,
            options: json_entries(self.options),
            public: match self.public {
                Some(p) => Some(p@),
                None => None,
            },
        }
    }
}

/// The description of a cipher named `algorithm` that runs with `nonce` and,
/// where `their_public` is given, with that key of the other party.
pub open spec fn described(
    algorithm: Seq<char>,
    nonce: Seq<char>,
    their_public: Option<Seq<char>>,
) -> BoxInfoView {
    let with_nonce = no_entries().insert("nonce"@, Some(nonce));
    BoxInfoView {
        hdpath: hd_path(),
        algorithm,
        options: match their_public {
            Some(k) => with_nonce.insert("their_public"@, Some(k)),
            None => with_nonce,
        },
        public: None,
    }
}

impl BoxInfoView {
    /// The description gives `text` away: as the value of one of its options,
    /// or as the public key.
    pub open spec fn discloses(self, text: Seq<char>) -> bool {
        self.public == Some(text) || exists|name: Seq<char>|
            self.options.contains_key(name) && #[trigger] self.options[name] == Some(text)
    }
}

/// A description gives away its nonce and the other party's public key, and
/// no other text.
pub proof fn lemma_described_discloses(
    algorithm: Seq<char>,
    nonce: Seq<char>,
    their_public: Option<Seq<char>>,
    text: Seq<char>,
)
    ensures
        described(algorithm, nonce, their_public).discloses(text) <==> (text == nonce
            || their_public == Some(text)),
{
    reveal_strlit("nonce");
    reveal_strlit("their_public");
    let d = described(algorithm, nonce, their_public);
    assert("nonce"@.len() != "their_public"@.len());
    assert(d.options.contains_key("nonce"@) && d.options["nonce"@] == Some(nonce));
    if their_public is Some {
        assert(d.options.contains_key("their_public"@));
        assert(d.options["their_public"@] == their_public);
    }
}

impl BoxInfo {
    /// Describes a cipher by its name, its nonce and, for a cipher between two
    /// parties, the other party's public key.
    pub fn describe(algorithm: &str, nonce: &str, their_public: Option<&str>) -> (r: BoxInfo)
        ensures
            r@ == described(
                algorithm@,
                nonce@,
                match their_public {
                    Some(k) => Some(k@),
                    None => None,
                },
            ),
    {
        let mut options = json_object();
        json_put(&mut options, "nonce", nonce);
        match their_public {
            Some(k) => {
                json_put(&mut options, "their_public", k);
            },
            None => {},
        }
        BoxInfo {
            hdpath: String::from_str(HD_PATH),
            algorithm: String::from_str(algorithm),
            options,
            public: None,
        }
    }

    /// The text of the option `name`, where the bag holds one.
    pub fn option(&self, name: &str) -> (r: Option<String>)
        ensures
            match r {
                Some(text) => self@.options.contains_key(name@) && self@.options[name@] == Some(
                    text@,
                ),
                None => !self@.options.contains_key(name@) || self@.options[name@] is None,
            },
    {
        json_text(&self.options, name)
    }
}

} // verus!
