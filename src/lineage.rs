use vstd::prelude::*;

use crate::credentials::opt_view;
use crate::error::ResticError;
use crate::text::{has_prefix, same_text, starts_with};

verus! {

/// A snapshot as listed by a target.
pub struct Snapshot {
    pub id: String,
    pub short_id: String,
    pub time: String,
    pub hostname: String,
    pub paths: Vec<String>,
    pub tags: Vec<String>,
    pub parent: Option<String>,
}

/// The head marker of one machine: `head:<hostname>:<fingerprint>`.
pub struct HeadTag {
    pub hostname: String,
    pub host_key: String,
}

/// The text of a head marker.
pub open spec fn head_text(h: HeadTag) -> Seq<char> {
    "head:"@ + h.hostname@ + ":"@ + h.host_key@
}

/// The fingerprint text of an OpenSSH public key line, when it parses.
pub uninterp spec fn openssh_fingerprint(key: Seq<char>) -> Option<Seq<char>>;

/// Relies on `ssh_key::PublicKey::from_openssh` and
/// `PublicKey::fingerprint`: the SHA-256 fingerprint of a public key line,
/// as its `Display` writes it, or `None` when the line does not parse.
#[verifier::external_body]
fn fingerprint(key: &str) -> (r: Option<String>)
    ensures
        opt_view(r) == openssh_fingerprint(key@),
{
    match ssh_key::PublicKey::from_openssh(key) {
        Ok(k) => Some(k.fingerprint(ssh_key::HashAlg::Sha256).to_string()),
        Err(_) => None,
    }
}

/// A fingerprint without its `SHA256:` algorithm prefix.
pub open spec fn key_id(f: Seq<char>) -> Seq<char> {
    if has_prefix(f, "SHA256:"@) {
        f.subrange(7, f.len() as int)
    } else {
        f
    }
}

/// The machine identifier carried by a fingerprint text.
pub fn key_id_of_fingerprint(f: &str) -> (r: String)
    ensures
        r@ == key_id(f@),
{
    proof {
        reveal_strlit("SHA256:");
    }
    if starts_with(f, "SHA256:") {
        f.substring_char(7, f.unicode_len()).to_owned()
    } else {
        f.to_owned()
    }
}

/// The machine identifier: the SHA-256 fingerprint of the host's public key
/// line `key_data`, without its prefix; `None` when the line does not parse.
pub fn machine_id(key_data: &str) -> (r: Option<String>)
    ensures
        match openssh_fingerprint(key_data@) {
            Some(f) => opt_view(r) == Some(key_id(f)),
            None => r is None,
        },
{
    match fingerprint(key_data) {
        Some(f) => Some(key_id_of_fingerprint(f.as_str())),
        None => None,
    }
}

impl HeadTag {
    /// The marker of the machine named `hostname` whose host key line is
    /// `key_data`; `None` when the key does not parse.
    pub fn own(hostname: String, key_data: &str) -> (r: Option<HeadTag>)
        ensures
            match openssh_fingerprint(key_data@) {
                Some(f) => match r {
                    Some(h) => h.hostname == hostname && h.host_key@ == key_id(f),
                    None => false,
                },
                None => r is None,
            },
    {
        match machine_id(key_data) {
            Some(k) => Some(HeadTag { hostname, host_key: k }),
            None => None,
        }
    }

    /// The marker text.
    pub fn to_string(&self) -> (r: String)
        ensures
            r@ == head_text(*self),
    {
        let mut s = "head:".to_owned();
        s.append(self.hostname.as_str());
        s.append(":");
        s.append(self.host_key.as_str());
        s
    }
}

/// Whether `tags` holds `t`.
pub open spec fn carries(tags: Seq<String>, t: Seq<char>) -> bool {
    exists|i: int| 0 <= i < tags.len() && tags[i]@ == t
}

/// Whether some tag of `tags` begins with `p`.
pub open spec fn carries_prefix(tags: Seq<String>, p: Seq<char>) -> bool {
    exists|i: int| 0 <= i < tags.len() && has_prefix(tags[i]@, p)
}

/// Whether `tags` holds `t`.
pub fn has_tag(tags: &Vec<String>, t: &str) -> (r: bool)
    ensures
        r == carries(tags@, t@),
{
    let mut i: usize = 0;
    while i < tags.len()
        invariant
            i <= tags.len(),
            forall|j: int| 0 <= j < i ==> tags@[j]@ != t@,
        decreases tags.len() - i,
    {
        if same_text(tags[i].as_str(), t) {
            return true;
        }
        i = i + 1;
    }
    false
}

/// Whether the snapshot carries the head marker `head`.
pub fn is_head_tag(head: &HeadTag, snap: &Snapshot) -> (r: bool)
    ensures
        r == carries(snap.tags@, head_text(*head)),
{
    let t = head.to_string();
    has_tag(&snap.tags, t.as_str())
}

/// Whether the snapshot carries the head marker of any machine.
pub fn is_head(snap: &Snapshot) -> (r: bool)
    ensures
        r == carries_prefix(snap.tags@, "head:"@),
{
    let mut i: usize = 0;
    while i < snap.tags.len()
        invariant
            i <= snap.tags.len(),
            forall|j: int| 0 <= j < i ==> !has_prefix(snap.tags@[j]@, "head:"@),
        decreases snap.tags.len() - i,
    {
        if starts_with(snap.tags[i].as_str(), "head:") {
            return true;
        }
        i = i + 1;
    }
    false
}

/// The identifiers of the snapshots that carry the marker `t`, in order.
pub open spec fn head_ids(snaps: Seq<Snapshot>, t: Seq<char>) -> Seq<Seq<char>>
    decreases snaps.len(),
{
    if snaps.len() == 0 {
        Seq::empty()
    } else {
        let rest = head_ids(snaps.drop_last(), t);
        if carries(snaps.last().tags@, t) {
            rest.push(snaps.last().id@)
        } else {
            rest
        }
    }
}

/// The current head of a lineage: the one snapshot that carries the marker,
/// none when no snapshot does, and `DuplicateHead` when several do.
pub open spec fn current_head(snaps: Seq<Snapshot>, t: Seq<char>) -> Result<
    Option<Seq<char>>,
    ResticError,
> {
    let ids = head_ids(snaps, t);
    if ids.len() == 0 {
        Ok(None)
    } else if ids.len() == 1 {
        Ok(Some(ids[0]))
    } else {
        Err(ResticError::DuplicateHead)
    }
}

/// The identifier of the snapshot that carries the marker `t`; see
/// `current_head`.
pub fn find_head(snaps: &Vec<Snapshot>, t: &str) -> (r: Result<Option<String>, ResticError>)
    ensures
        match r {
            Ok(o) => current_head(snaps@, t@) == Ok::<_, ResticError>(opt_view(o)),
            Err(e) => current_head(snaps@, t@) == Err::<Option<Seq<char>>, _>(e),
        },
{
    let mut found: Option<String> = None;
    let mut count: usize = 0;
    let mut i: usize = 0;
    while i < snaps.len()
        invariant
            i <= snaps.len(),
            count <= 1,
            count == head_ids(snaps@.subrange(0, i as int), t@).len(),
            count == 0 <==> found is None,
            count == 1 ==> opt_view(found) == Some(head_ids(snaps@.subrange(0, i as int), t@)[0]),
        decreases snaps.len() - i,
    {
        let ghost sub = snaps@.subrange(0, i + 1);
        assert(sub.drop_last() =~= snaps@.subrange(0, i as int));
        assert(sub.last() == snaps@[i as int]);
        if has_tag(&snaps[i].tags, t) {
            if count == 1 {
                assert(head_ids(sub, t@).len() == 2);
                assert(current_head(snaps@.subrange(0, i + 1), t@) is Err);
                proof {
                    lemma_head_ids_grow(snaps@, t@, i + 1);
                }
                return Err(ResticError::DuplicateHead);
            }
            found = Some(snaps[i].id.clone());
            count = 1;
        }
        i = i + 1;
    }
    assert(snaps@.subrange(0, snaps@.len() as int) =~= snaps@);
    Ok(found)
}

/// Markers found in a prefix of the listing are still found in the whole.
pub proof fn lemma_head_ids_grow(snaps: Seq<Snapshot>, t: Seq<char>, k: int)
    requires
        0 <= k <= snaps.len(),
    ensures
        head_ids(snaps.subrange(0, k), t).len() <= head_ids(snaps, t).len(),
    decreases snaps.len() - k,
{
    if k < snaps.len() {
        lemma_head_ids_grow(snaps, t, k + 1);
        assert(snaps.subrange(0, k + 1).drop_last() =~= snaps.subrange(0, k));
    } else {
        assert(snaps.subrange(0, k) =~= snaps);
    }
}

/// With no snapshot carrying the marker there is no head: the next archive
/// starts a lineage (its parent tag is empty).
pub proof fn lemma_no_head(snaps: Seq<Snapshot>, t: Seq<char>)
    requires
        forall|i: int| 0 <= i < snaps.len() ==> !carries(#[trigger] snaps[i].tags@, t),
    ensures
        current_head(snaps, t) == Ok::<Option<Seq<char>>, ResticError>(None),
    decreases snaps.len(),
{
    if snaps.len() > 0 {
        let d = snaps.drop_last();
        assert forall|i: int| 0 <= i < d.len() implies !carries(#[trigger] d[i].tags@, t) by {
            assert(d[i] == snaps[i]);
        }
        lemma_no_head(d, t);
        assert(!carries(snaps[snaps.len() - 1].tags@, t));
    }
}

/// With exactly one snapshot carrying the marker, that snapshot is the head.
pub proof fn lemma_single_head(snaps: Seq<Snapshot>, t: Seq<char>, k: int)
    requires
        0 <= k < snaps.len(),
        carries(snaps[k].tags@, t),
        forall|i: int| 0 <= i < snaps.len() && i != k ==> !carries(#[trigger] snaps[i].tags@, t),
    ensures
        current_head(snaps, t) == Ok::<Option<Seq<char>>, ResticError>(Some(snaps[k].id@)),
    decreases snaps.len(),
{
    lemma_single_head_ids(snaps, t, k);
}

proof fn lemma_single_head_ids(snaps: Seq<Snapshot>, t: Seq<char>, k: int)
    requires
        0 <= k < snaps.len(),
        carries(snaps[k].tags@, t),
        forall|i: int| 0 <= i < snaps.len() && i != k ==> !carries(#[trigger] snaps[i].tags@, t),
    ensures
        head_ids(snaps, t) == seq![snaps[k].id@],
    decreases snaps.len(),
{
    let d = snaps.drop_last();
    if k == snaps.len() - 1 {
        assert forall|i: int| 0 <= i < d.len() implies !carries(#[trigger] d[i].tags@, t) by {
            assert(d[i] == snaps[i]);
        }
        lemma_no_head(d, t);
        assert(head_ids(snaps, t) =~= seq![snaps[k].id@]);
    } else {
        assert forall|i: int| 0 <= i < d.len() && i != k implies !carries(
            #[trigger] d[i].tags@,
            t,
        ) by {
            assert(d[i] == snaps[i]);
        }
        assert(d[k] == snaps[k]);
        lemma_single_head_ids(d, t, k);
        assert(!carries(snaps[snaps.len() - 1].tags@, t));
    }
}

/// Two snapshots carrying the marker at once abort with `DuplicateHead`.
pub proof fn lemma_duplicate_head(snaps: Seq<Snapshot>, t: Seq<char>, i: int, j: int)
    requires
        0 <= i < j < snaps.len(),
        carries(snaps[i].tags@, t),
        carries(snaps[j].tags@, t),
    ensures
        current_head(snaps, t) == Err::<Option<Seq<char>>, ResticError>(ResticError::DuplicateHead),
{
    lemma_head_ids_two(snaps, t, i, j);
}

proof fn lemma_head_ids_one(snaps: Seq<Snapshot>, t: Seq<char>, i: int)
    requires
        0 <= i < snaps.len(),
        carries(snaps[i].tags@, t),
    ensures
        head_ids(snaps, t).len() >= 1,
    decreases snaps.len(),
{
    if i < snaps.len() - 1 {
        let d = snaps.drop_last();
        assert(d[i] == snaps[i]);
        lemma_head_ids_one(d, t, i);
    }
}

proof fn lemma_head_ids_two(snaps: Seq<Snapshot>, t: Seq<char>, i: int, j: int)
    requires
        0 <= i < j < snaps.len(),
        carries(snaps[i].tags@, t),
        carries(snaps[j].tags@, t),
    ensures
        head_ids(snaps, t).len() >= 2,
    decreases snaps.len(),
{
    let d = snaps.drop_last();
    assert(d[i] == snaps[i]);
    if j == snaps.len() - 1 {
        lemma_head_ids_one(d, t, i);
    } else {
        assert(d[j] == snaps[j]);
        lemma_head_ids_two(d, t, i, j);
    }
}

} // verus!
