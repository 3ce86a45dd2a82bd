//! The scripted responses of the ECU simulator: which request (CAN id and
//! payload) is answered with which frames.

use vstd::prelude::*;
use vstd::utf8::encode_utf8;
use crate::isotp::{
    consecutive_count, consecutive_frame, first_frame, lemma_frame_number, lemma_length_bytes,
    segment,
};

verus! {

/// One CAN frame to send: its id and payload.
pub struct RawResponse {
    pub can_id: u32,
    pub message: Vec<u8>,
}

/// A message sent as ISO-TP first and consecutive frames under one CAN id.
pub struct ConsecutiveResponse {
    pub can_id: u32,
    pub message: Vec<u8>,
}

/// A scripted answer.
pub enum Response {
    Raw(RawResponse),
    Consecutive(ConsecutiveResponse),
}

/// A request the simulator answers, with its answers in sending order.
pub struct Request {
    pub can_id: u32,
    pub message: Vec<u8>,
    pub response: Vec<Response>,
}

/// Whether `frames` are the frames of `m`, all under CAN id `can_id`.
pub open spec fn frames_are(frames: Seq<RawResponse>, can_id: u32, m: Seq<Seq<u8>>) -> bool {
    &&& frames.len() == m.len()
    &&& forall|i: int|
        0 <= i < frames.len() ==> (#[trigger] frames[i]).can_id == can_id && frames[i].message@
            == m[i]
}

/// The frames that answer `r`: a raw answer is one frame, a consecutive
/// answer is the segmentation of its message.
pub open spec fn response_frames(r: Response) -> (u32, Seq<Seq<u8>>) {
    match r {
        Response::Raw(raw) => (raw.can_id, seq![raw.message@]),
        Response::Consecutive(c) => (c.can_id, segment(c.message@)),
    }
}

/// Whether an answer can be segmented: a consecutive answer carries at least
/// the six bytes of its first frame.
pub open spec fn response_segmentable(r: Response) -> bool {
    r matches Response::Consecutive(c) ==> c.message@.len() >= 6
}

// ---------------------------------------------------------------------------
// Byte-wise order of names.
// ---------------------------------------------------------------------------

/// Lexicographic order on byte strings, the order of Rust's `str`: `a` comes
/// before `b` when it is a proper prefix of `b` or when the first byte where
/// they differ is smaller in `a`.
pub open spec fn bytes_before(a: Seq<u8>, b: Seq<u8>) -> bool
    decreases a.len(),
{
    if a.len() == 0 {
        b.len() > 0
    } else if b.len() == 0 {
        false
    } else if a[0] != b[0] {
        a[0] < b[0]
    } else {
        bytes_before(a.drop_first(), b.drop_first())
    }
}

pub proof fn lemma_bytes_before_irreflexive(a: Seq<u8>)
    ensures
        !bytes_before(a, a),
    decreases a.len(),
{
    if a.len() > 0 {
        lemma_bytes_before_irreflexive(a.drop_first());
    }
}

pub proof fn lemma_bytes_before_total(a: Seq<u8>, b: Seq<u8>)
    ensures
        a == b || bytes_before(a, b) || bytes_before(b, a),
    decreases a.len(),
{
    if a.len() > 0 && b.len() > 0 && a[0] == b[0] {
        lemma_bytes_before_total(a.drop_first(), b.drop_first());
        if a.drop_first() == b.drop_first() {
            assert(a =~= seq![a[0]] + a.drop_first());
            assert(b =~= seq![b[0]] + b.drop_first());
        }
    } else if a.len() == 0 && b.len() == 0 {
        assert(a =~= b);
    }
}

pub proof fn lemma_bytes_before_transitive(a: Seq<u8>, b: Seq<u8>, c: Seq<u8>)
    requires
        bytes_before(a, b),
        bytes_before(b, c),
    ensures
        bytes_before(a, c),
    decreases a.len(),
{
    if a.len() > 0 && b.len() > 0 && c.len() > 0 && a[0] == b[0] && b[0] == c[0] {
        lemma_bytes_before_transitive(a.drop_first(), b.drop_first(), c.drop_first());
    }
}

pub proof fn lemma_bytes_before_asymmetric(a: Seq<u8>, b: Seq<u8>)
    requires
        bytes_before(a, b),
    ensures
        !bytes_before(b, a),
{
    if bytes_before(b, a) {
        lemma_bytes_before_transitive(a, b, a);
        lemma_bytes_before_irreflexive(a);
    }
}

/// The outcome of comparing two byte strings.
#[derive(Clone, Copy, Debug, PartialEq, Eq, Structural)]
pub enum ByteOrder {
    Before,
    Same,
    After,
}

/// Compares `a` with `b` in byte-wise lexicographic order.
pub fn compare_bytes(a: &[u8], b: &[u8]) -> (r: ByteOrder)
    ensures
        r == ByteOrder::Before <==> bytes_before(a@, b@),
        r == ByteOrder::Same <==> a@ == b@,
        r == ByteOrder::After <==> bytes_before(b@, a@),
{
    let mut i: usize = 0;
    assert(a@.skip(0) =~= a@);
    assert(b@.skip(0) =~= b@);
    while i < a.len() && i < b.len() && a[i] == b[i]
        invariant
            i <= a@.len(),
            i <= b@.len(),
            a@.take(i as int) == b@.take(i as int),
            bytes_before(a@, b@) == bytes_before(a@.skip(i as int), b@.skip(i as int)),
            bytes_before(b@, a@) == bytes_before(b@.skip(i as int), a@.skip(i as int)),
        decreases a@.len() - i,
    {
        assert(a@.skip(i as int).drop_first() =~= a@.skip(i + 1));
        assert(b@.skip(i as int).drop_first() =~= b@.skip(i + 1));
        assert(a@.take(i + 1) =~= a@.take(i as int).push(a@[i as int]));
        assert(b@.take(i + 1) =~= b@.take(i as int).push(b@[i as int]));
        i = i + 1;
    }
    proof {
        lemma_bytes_before_irreflexive(a@);
        lemma_bytes_before_total(a@, b@);
    }
    if i < a.len() && i < b.len() {
        assert(a@ != b@) by {
            assert(a@[i as int] != b@[i as int]);
        }
        if a[i] < b[i] {
            proof {
                lemma_bytes_before_asymmetric(a@, b@);
            }
            ByteOrder::Before
        } else {
            proof {
                lemma_bytes_before_asymmetric(b@, a@);
            }
            ByteOrder::After
        }
    } else if i == a.len() && i == b.len() {
        assert(a@ =~= a@.take(i as int));
        assert(b@ =~= b@.take(i as int));
        ByteOrder::Same
    } else if i == a.len() {
        assert(a@ != b@);
        proof {
            lemma_bytes_before_asymmetric(a@, b@);
        }
        ByteOrder::Before
    } else {
        assert(a@ != b@);
        proof {
            lemma_bytes_before_asymmetric(b@, a@);
        }
        ByteOrder::After
    }
}

// ---------------------------------------------------------------------------
// The configuration: named lists of requests, kept in name order.
// ---------------------------------------------------------------------------

/// The requests read from one configuration file.
pub struct ConfigEntry {
    pub name: String,
    pub requests: Vec<Request>,
}

/// The bytes of an entry's name.
pub open spec fn name_bytes(e: ConfigEntry) -> Seq<u8> {
    vstd::utf8::encode_utf8(e.name@)
}

/// Entries in strictly increasing byte order of their names.
pub open spec fn names_ascending(s: Seq<ConfigEntry>) -> bool {
    forall|i: int, j: int|
        0 <= i < j < s.len() ==> bytes_before(name_bytes(#[trigger] s[i]), name_bytes(#[trigger] s[j]))
}

/// Whether request `r` answers CAN id `can_id` with payload `message`.
pub open spec fn request_matches(r: Request, can_id: u32, message: Seq<u8>) -> bool {
    r.can_id == can_id && r.message@ == message
}

/// Whether request `j` of entry `i` answers `can_id` and `message`.
pub open spec fn matches_at(s: Seq<ConfigEntry>, i: int, j: int, can_id: u32, message: Seq<u8>) -> bool {
    &&& 0 <= i < s.len()
    &&& 0 <= j < s[i].requests@.len()
    &&& request_matches(s[i].requests@[j], can_id, message)
}

/// Whether request `j` of entry `i` is the first that answers `can_id` and
/// `message`, in name order and then in file order.
pub open spec fn first_match(s: Seq<ConfigEntry>, i: int, j: int, can_id: u32, message: Seq<u8>) -> bool {
    &&& matches_at(s, i, j, can_id, message)
    &&& forall|i2: int, j2: int|
        (i2 < i || (i2 == i && j2 < j)) ==> !matches_at(s, i2, j2, can_id, message)
}

/// A configuration file whose name comes after every name already read is
/// stored last, and earlier files keep their priority: a request found
/// before is still the one found, and the new file's requests answer only
/// what no earlier file answers.
pub proof fn lemma_later_file_keeps_priority(
    before: Seq<ConfigEntry>,
    after: Seq<ConfigEntry>,
    entry: ConfigEntry,
    can_id: u32,
    message: Seq<u8>,
)
    requires
        names_ascending(before),
        forall|i: int| 0 <= i < before.len() ==> bytes_before(name_bytes(#[trigger] before[i]), name_bytes(entry)),
        names_ascending(after),
        exists|p: int| 0 <= p <= before.len() && after == before.insert(p, entry),
    ensures
        after == before.push(entry),
        forall|i: int, j: int|
            first_match(before, i, j, can_id, message) ==> first_match(after, i, j, can_id, message),
        forall|i: int, j: int|
            first_match(after, i, j, can_id, message) ==> (first_match(before, i, j, can_id, message)
                || (i == before.len() && forall|i2: int, j2: int|
                !matches_at(before, i2, j2, can_id, message))),
{
    let p = choose|p: int| 0 <= p <= before.len() && after == before.insert(p, entry);
    if p < before.len() {
        assert(after[p] == entry);
        assert(after[p + 1] == before[p]);
        assert(bytes_before(name_bytes(after[p]), name_bytes(after[p + 1])));
        lemma_bytes_before_asymmetric(name_bytes(before[p]), name_bytes(entry));
    }
    assert(after =~= before.push(entry));
    assert forall|i: int, j: int| 0 <= i < before.len() implies #[trigger] matches_at(
        after,
        i,
        j,
        can_id,
        message,
    ) == matches_at(before, i, j, can_id, message) by {
        assert(after[i] == before[i]);
    }
    assert forall|i: int, j: int| first_match(before, i, j, can_id, message) implies first_match(
        after,
        i,
        j,
        can_id,
        message,
    ) by {
        assert forall|i2: int, j2: int| (i2 < i || (i2 == i && j2 < j)) implies !matches_at(
            after,
            i2,
            j2,
            can_id,
            message,
        ) by {
            if 0 <= i2 < before.len() {
                assert(matches_at(after, i2, j2, can_id, message) == matches_at(before, i2, j2, can_id, message));
            }
        }
        assert(matches_at(after, i, j, can_id, message) == matches_at(before, i, j, can_id, message));
    }
    assert forall|i: int, j: int| first_match(after, i, j, can_id, message) implies (first_match(
        before,
        i,
        j,
        can_id,
        message,
    ) || (i == before.len() && forall|i2: int, j2: int|
        !matches_at(before, i2, j2, can_id, message))) by {
        if i < before.len() {
            assert(matches_at(after, i, j, can_id, message) == matches_at(before, i, j, can_id, message));
            assert forall|i2: int, j2: int| (i2 < i || (i2 == i && j2 < j)) implies !matches_at(
                before,
                i2,
                j2,
                can_id,
                message,
            ) by {
                if 0 <= i2 < before.len() {
                    assert(matches_at(after, i2, j2, can_id, message) == matches_at(before, i2, j2, can_id, message));
                }
            }
        } else {
            assert forall|i2: int, j2: int| !matches_at(before, i2, j2, can_id, message) by {
                if 0 <= i2 < before.len() {
                    assert(matches_at(after, i2, j2, can_id, message) == matches_at(before, i2, j2, can_id, message));
                }
            }
        }
    }
}

/// All scripted requests, by configuration name.
pub struct Config {
    configs: Vec<ConfigEntry>,
}

impl View for Config {
    type V = Seq<ConfigEntry>;

    closed spec fn view(&self) -> Seq<ConfigEntry> {
        self.configs@
    }
}

/// Whether two byte strings hold the same bytes.
pub(crate) fn bytes_equal(a: &[u8], b: &[u8]) -> (r: bool)
    ensures
        r == (a@ == b@),
{
    if a.len() != b.len() {
        return false;
    }
    let mut i: usize = 0;
    while i < a.len()
        invariant
            a@.len() == b@.len(),
            i <= a@.len(),
            forall|k: int| 0 <= k < i ==> a@[k] == b@[k],
        decreases a@.len() - i,
    {
        if a[i] != b[i] {
            return false;
        }
        i = i + 1;
    }
    assert(a@ =~= b@);
    true
}

impl Config {
    #[verifier::type_invariant]
    spec fn inv(self) -> bool {
        names_ascending(self.configs@)
    }

    /// A configuration without entries.
    pub fn empty() -> (r: Config)
        ensures
            r@.len() == 0,
    {
        Config { configs: Vec::new() }
    }

    /// The entries, in name order.
    pub fn configs(&self) -> (r: &Vec<ConfigEntry>)
        ensures
            r@ == self@,
            names_ascending(self@),
    {
        proof {
            use_type_invariant(self);
        }
        &self.configs
    }

    /// Stores `requests` under `name`, replacing the requests stored under
    /// the same name; the entries stay in name order.
    pub fn insert(&mut self, name: String, requests: Vec<Request>)
        ensures
            names_ascending(final(self)@),
            (exists|i: int| 0 <= i < old(self)@.len() && name_bytes(old(self)@[i]) == encode_utf8(name@))
                ==> exists|i: int|
                0 <= i < old(self)@.len() && name_bytes(old(self)@[i]) == encode_utf8(name@)
                    && final(self)@ == old(self)@.update(i, ConfigEntry { name, requests }),
            (forall|i: int| 0 <= i < old(self)@.len() ==> name_bytes(old(self)@[i]) != encode_utf8(name@))
                ==> exists|p: int|
                0 <= p <= old(self)@.len() && final(self)@ == old(self)@.insert(
                    p,
                    ConfigEntry { name, requests },
                ),
    {
        proof {
            use_type_invariant(&*self);
        }
        let mut entries: Vec<ConfigEntry> = Vec::new();
        std::mem::swap(&mut entries, &mut self.configs);
        let ghost old_entries = entries@;
        assert(old_entries == old(self)@);
        let key = name.as_str().as_bytes();
        let mut p: usize = 0;
        let mut order = ByteOrder::Before;
        let mut searching = true;
        while searching && p < entries.len()
            invariant
                entries@ == old_entries,
                names_ascending(old_entries),
                key@ == encode_utf8(name@),
                p <= entries@.len(),
                forall|j: int| 0 <= j < p ==> bytes_before(name_bytes(#[trigger] entries@[j]), key@),
                !searching ==> {
                    &&& p < entries@.len()
                    &&& order != ByteOrder::Before
                    &&& (order == ByteOrder::Same <==> name_bytes(entries@[p as int]) == key@)
                    &&& (order == ByteOrder::After <==> bytes_before(key@, name_bytes(entries@[p as int])))
                },
            decreases entries@.len() - p + (if searching { 1int } else { 0int }),
        {
            let o = compare_bytes(entries[p].name.as_str().as_bytes(), key);
            if o == ByteOrder::Before {
                p = p + 1;
            } else {
                order = o;
                searching = false;
            }
        }
        let ghost new_entry = ConfigEntry { name, requests };
        if !searching && order == ByteOrder::Same {
            entries.set(p, ConfigEntry { name, requests });
            proof {
                assert(name_bytes(old_entries[p as int]) == encode_utf8(name@));
                assert forall|i: int, j: int| 0 <= i < j < entries@.len() implies bytes_before(
                    name_bytes(#[trigger] entries@[i]),
                    name_bytes(#[trigger] entries@[j]),
                ) by {
                    assert(name_bytes(entries@[i]) == name_bytes(old_entries[i]));
                    assert(name_bytes(entries@[j]) == name_bytes(old_entries[j]));
                }
            }
        } else {
            entries.insert(p, ConfigEntry { name, requests });
            assert(entries@ == old_entries.insert(p as int, new_entry));
            proof {
                if p < old_entries.len() {
                    assert(bytes_before(key@, name_bytes(old_entries[p as int])));
                }
                assert forall|i: int, j: int| 0 <= i < j < entries@.len() implies bytes_before(
                    name_bytes(#[trigger] entries@[i]),
                    name_bytes(#[trigger] entries@[j]),
                ) by {
                    if i < p && j < p {
                        assert(entries@[i] == old_entries[i]);
                        assert(entries@[j] == old_entries[j]);
                    } else if i < p && j == p {
                    } else if i < p {
                        assert(entries@[i] == old_entries[i]);
                        assert(entries@[j] == old_entries[j - 1]);
                    } else if i == p {
                        assert(entries@[j] == old_entries[j - 1]);
                        if j - 1 > p {
                            lemma_bytes_before_transitive(
                                key@,
                                name_bytes(old_entries[p as int]),
                                name_bytes(old_entries[j - 1]),
                            );
                        }
                    } else {
                        assert(entries@[i] == old_entries[i - 1]);
                        assert(entries@[j] == old_entries[j - 1]);
                    }
                }
                assert forall|i: int| 0 <= i < old_entries.len() implies name_bytes(old_entries[i])
                    != encode_utf8(name@) by {
                    if i < p {
                        lemma_bytes_before_irreflexive(key@);
                    } else {
                        lemma_bytes_before_irreflexive(key@);
                        if i > p {
                            lemma_bytes_before_transitive(
                                key@,
                                name_bytes(old_entries[p as int]),
                                name_bytes(old_entries[i]),
                            );
                        }
                    }
                }
            }
        }
        self.configs = entries;
    }

    /// The first request, in name order and then in file order, that answers
    /// `can_id` with payload `can_message`.
    pub fn find_request(&self, can_id: u32, can_message: &[u8]) -> (r: Option<&Request>)
        ensures
            r is None <==> !exists|i: int, j: int| matches_at(self@, i, j, can_id, can_message@),
            r matches Some(req) ==> exists|i: int, j: int|
                first_match(self@, i, j, can_id, can_message@) && *req == self@[i].requests@[j],
    {
        let mut i: usize = 0;
        while i < self.configs.len()
            invariant
                i <= self@.len(),
                forall|i2: int, j2: int| i2 < i ==> !matches_at(self@, i2, j2, can_id, can_message@),
            decreases self@.len() - i,
        {
            let requests = &self.configs[i].requests;
            let mut j: usize = 0;
            while j < requests.len()
                invariant
                    i < self@.len(),
                    requests@ == self@[i as int].requests@,
                    j <= requests@.len(),
                    forall|i2: int, j2: int| i2 < i ==> !matches_at(self@, i2, j2, can_id, can_message@),
                    forall|j2: int| j2 < j ==> !matches_at(self@, i as int, j2, can_id, can_message@),
                decreases requests@.len() - j,
            {
                let request = &requests[j];
                if request.can_id == can_id && bytes_equal(request.message.as_slice(), can_message) {
                    assert(first_match(self@, i as int, j as int, can_id, can_message@));
                    return Some(request);
                }
                j = j + 1;
            }
            i = i + 1;
        }
        None
    }
}

impl ConsecutiveResponse {
    /// The first frame and the consecutive frames of the message.
    pub fn into_raw_responses(&self) -> (r: Vec<RawResponse>)
        requires
            self.message@.len() >= 6,
        ensures
            frames_are(r@, self.can_id, segment(self.message@)),
    {
        let message = &self.message;
        let message_len = message.len();
        let ghost m = message@;

        let mut first: Vec<u8> = Vec::with_capacity(8);
        proof {
            lemma_length_bytes(message_len);
        }
        first.push(0x10u8 | ((message_len >> 8) as u8));
        first.push((message_len & 0xFF) as u8);
        let mut i: usize = 0;
        while i < 6
            invariant
                0 <= i <= 6,
                m == message@,
                m.len() == message_len,
                message_len >= 6,
                first@ =~= seq![0x10u8 | (((m.len() / 256) % 256) as u8), (m.len() % 256) as u8]
                    + m.subrange(0, i as int),
            decreases 6 - i,
        {
            first.push(message[i]);
            i = i + 1;
        }
        assert(first@ =~= first_frame(m));

        let mut ret: Vec<RawResponse> = Vec::new();
        ret.push(RawResponse { can_id: self.can_id, message: first });

        let mut chunk_nr: usize = 0;
        let mut start: usize = 6;
        while start < message_len
            invariant
                m == message@,
                m.len() == message_len,
                message_len >= 6,
                6 <= start <= message_len,
                start < message_len ==> start == 6 + 7 * chunk_nr && chunk_nr < consecutive_count(
                    m.len(),
                ),
                start == message_len ==> chunk_nr == consecutive_count(m.len()),
                ret@.len() == chunk_nr + 1,
                frames_are(ret@, self.can_id, segment(m).take(chunk_nr + 1)),
            decreases message_len - start,
        {
            let end = if message_len - start >= 7 {
                start + 7
            } else {
                message_len
            };
            let mut frame: Vec<u8> = Vec::with_capacity(8);
            proof {
                lemma_frame_number((chunk_nr + 1) as usize);
            }
            frame.push(0x20u8 | ((chunk_nr + 1) as u8 & 0x0F));
            let mut j: usize = start;
            while j < end
                invariant
                    m == message@,
                    start <= j <= end,
                    end <= m.len(),
                    end - start <= 7,
                    frame@ =~= seq![0x20u8 | (((chunk_nr + 1) % 16) as u8)] + m.subrange(
                        start as int,
                        j as int,
                    ),
                decreases end - j,
            {
                frame.push(message[j]);
                j = j + 1;
            }
            let ghost unpadded = frame@;
            assert(unpadded.len() <= 8);
            while frame.len() < 8
                invariant
                    unpadded.len() <= frame@.len() <= 8,
                    frame@ =~= unpadded + Seq::new(
                        (frame@.len() - unpadded.len()) as nat,
                        |i: int| 0u8,
                    ),
                decreases 8 - frame@.len(),
            {
                frame.push(0);
            }
            assert(frame@ =~= consecutive_frame(m, chunk_nr as int));
            let ghost before = ret@;
            ret.push(RawResponse { can_id: self.can_id, message: frame });
            proof {
                let seg = segment(m);
                assert(seg.take(chunk_nr + 2) =~= seg.take(chunk_nr + 1).push(seg[chunk_nr + 1]));
                assert(seg[chunk_nr + 1] == consecutive_frame(m, chunk_nr as int));
                assert forall|k: int| 0 <= k < ret@.len() implies (#[trigger] ret@[k]).can_id
                    == self.can_id && ret@[k].message@ == seg.take(chunk_nr + 2)[k] by {
                    if k < ret@.len() - 1 {
                        assert(ret@[k] == before[k]);
                    }
                }
            }
            chunk_nr = chunk_nr + 1;
            start = end;
        }
        assert(segment(m).take(chunk_nr + 1) =~= segment(m));
        ret
    }
}

/// Two frame lists that both are the frames of `m` under `can_id` are the
/// same frames in the same order: a consecutive answer gives the frames of
/// its message, whether it is asked directly or as an answer.
pub proof fn lemma_frames_are_unique(a: Seq<RawResponse>, b: Seq<RawResponse>, can_id: u32, m: Seq<Seq<u8>>)
    requires
        frames_are(a, can_id, m),
        frames_are(b, can_id, m),
    ensures
        a.len() == b.len(),
        forall|i: int|
            0 <= i < a.len() ==> (#[trigger] a[i]).can_id == b[i].can_id && a[i].message@
                == b[i].message@,
{
    assert forall|i: int| 0 <= i < a.len() implies (#[trigger] a[i]).can_id == b[i].can_id
        && a[i].message@ == b[i].message@ by {
        assert(a[i].message@ == m[i]);
        assert(b[i].message@ == m[i]);
    }
}

impl Response {
    /// The frames that answer this response.
    pub fn into_raw_responses(&self) -> (r: Vec<RawResponse>)
        requires
            response_segmentable(*self),
        ensures
            frames_are(r@, response_frames(*self).0, response_frames(*self).1),
            self matches Response::Raw(raw) ==> r@.len() == 1 && r@[0].can_id == raw.can_id
                && r@[0].message@ == raw.message@,
            self matches Response::Consecutive(c) ==> frames_are(r@, c.can_id, segment(c.message@)),
    {
        match self {
            Response::Raw(raw) => {
                let mut ret: Vec<RawResponse> = Vec::new();
                ret.push(RawResponse { can_id: raw.can_id, message: raw.message.clone() });
                ret
            },
            Response::Consecutive(consecutive) => consecutive.into_raw_responses(),
        }
    }
}

} // verus!
