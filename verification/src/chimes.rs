use vstd::prelude::*;
use std::collections::HashMap;
use vstd::string::StringExecFns;

verus! {

broadcast use vstd::std_specs::hash::group_hash_axioms;

/// Why the chime store could not do what it was asked.
#[derive(Clone, Copy, Debug, PartialEq, Eq, Structural)]
pub enum ChimeSinkError {
    /// The user has no chime on record.
    DataNotAvailable,
    /// The chime is on record but could not be made playable.
    Playback,
    /// The new chime could not be put in place.
    SaveError,
    /// The store's directory cannot be used.
    DirError,
}

/// Whether every character is a decimal digit.
pub open spec fn is_digits(s: Seq<char>) -> bool {
    forall|i: int| 0 <= i < s.len() ==> '0' <= #[trigger] s[i] <= '9'
}

/// The number that a row of decimal digits writes.
pub open spec fn digits_value(s: Seq<char>) -> nat
    decreases s.len(),
{
    if s.len() == 0 {
        0
    } else {
        digits_value(s.drop_last()) * 10 + (s.last() as nat - '0' as nat) as nat
    }
}

/// What is left of `s` without a `+` in front.
pub open spec fn unsigned_part(s: Seq<char>) -> Seq<char> {
    if s.len() > 0 && s[0] == '+' {
        s.skip(1)
    } else {
        s
    }
}

/// The user id that a file stem names: decimal digits, at least one, with
/// one `+` allowed in front, for a number that fits in 64 bits.
pub open spec fn parsed_id(s: Seq<char>) -> Option<u64> {
    let body = unsigned_part(s);
    if body.len() > 0 && is_digits(body) && digits_value(body) <= u64::MAX {
        Some(digits_value(body) as u64)
    } else {
        None
    }
}

/// The decimal digits of `n`, without leading zeros.
pub open spec fn decimal(n: nat) -> Seq<char>
    decreases n,
{
    if n < 10 {
        seq![digit_char(n)]
    } else {
        decimal(n / 10).push(digit_char(n % 10))
    }
}

/// The character for a digit below ten.
pub open spec fn digit_char(d: nat) -> char {
    if d == 0 {
        '0'
    } else if d == 1 {
        '1'
    } else if d == 2 {
        '2'
    } else if d == 3 {
        '3'
    } else if d == 4 {
        '4'
    } else if d == 5 {
        '5'
    } else if d == 6 {
        '6'
    } else if d == 7 {
        '7'
    } else if d == 8 {
        '8'
    } else {
        '9'
    }
}

proof fn lemma_prefix_value(s: Seq<char>, k: int)
    requires
        0 <= k <= s.len(),
    ensures
        digits_value(s.take(k)) <= digits_value(s),
    decreases s.len(),
{
    if k == s.len() {
        assert(s.take(k) =~= s);
    } else {
        lemma_prefix_value(s.drop_last(), k);
        assert(s.drop_last().take(k) =~= s.take(k));
    }
}

/// What `decimal` writes are digits, and they write the number back.
pub proof fn lemma_decimal_value(n: nat)
    ensures
        decimal(n).len() > 0,
        is_digits(decimal(n)),
        digits_value(decimal(n)) == n,
        decimal(n)[0] != '+',
    decreases n,
{
    if n < 10 {
        let s = seq![digit_char(n)];
        assert(s.drop_last() =~= Seq::<char>::empty());
        assert(digits_value(s.drop_last()) == 0);
        assert(s.last() == digit_char(n));
    } else {
        lemma_decimal_value(n / 10);
        let head = decimal(n / 10);
        let s = head.push(digit_char(n % 10));
        assert(s.drop_last() =~= head);
        assert(s.last() == digit_char(n % 10));
        assert(s[0] == head[0]);
    }
}

/// A file named by `file_name` is found again under the same user.
pub proof fn lemma_file_name_round_trip(user_id: u64)
    ensures
        parsed_id(decimal(user_id as nat)) == Some(user_id),
{
    lemma_decimal_value(user_id as nat);
}

/// Reads a user id from a file stem.
pub fn parse_user_id(stem: &str) -> (r: Option<u64>)
    ensures
        r == parsed_id(stem@),
{
    let n = stem.unicode_len();
    let start: usize = if n > 0 && stem.get_char(0) == '+' {
        1
    } else {
        0
    };
    let ghost body = unsigned_part(stem@);
    if start == n {
        return None;
    }
    let mut acc: u64 = 0;
    let mut i: usize = start;
    proof {
        assert(body.take(0) =~= Seq::<char>::empty());
    }
    while i < n
        invariant
            start <= i <= n,
            n == stem@.len(),
            start <= 1,
            body == unsigned_part(stem@),
            body.len() == n - start,
            forall|j: int| 0 <= j < body.len() ==> body[j] == stem@[j + start],
            is_digits(body.take(i - start)),
            acc as nat == digits_value(body.take(i - start)),
        decreases n - i,
    {
        let c = stem.get_char(i);
        let ghost k = (i - start) as int;
        proof {
            assert(body.take(k + 1).drop_last() =~= body.take(k));
            assert(body.take(k + 1).last() == c);
            lemma_prefix_value(body, k + 1);
        }
        if c < '0' || c > '9' {
            assert(!('0' <= body[k] <= '9'));
            return None;
        }
        let d: u64 = (c as u32 - '0' as u32) as u64;
        assert(digits_value(body.take(k + 1)) == acc as nat * 10 + d as nat);
        if acc > (u64::MAX - d) / 10 {
            assert(acc as nat * 10 + d as nat > u64::MAX);
            return None;
        }
        acc = acc * 10 + d;
        i = i + 1;
    }
    proof {
        assert(body.take(i - start) =~= body);
    }
    Some(acc)
}

fn digit_text(d: u64) -> (r: &'static str)
    requires
        d < 10,
    ensures
        r@ == seq![digit_char(d as nat)],
{
    proof {
        reveal_strlit("0");
        reveal_strlit("1");
        reveal_strlit("2");
        reveal_strlit("3");
        reveal_strlit("4");
        reveal_strlit("5");
        reveal_strlit("6");
        reveal_strlit("7");
        reveal_strlit("8");
        reveal_strlit("9");
    }
    let r = if d == 0 {
        "0"
    } else if d == 1 {
        "1"
    } else if d == 2 {
        "2"
    } else if d == 3 {
        "3"
    } else if d == 4 {
        "4"
    } else if d == 5 {
        "5"
    } else if d == 6 {
        "6"
    } else if d == 7 {
        "7"
    } else if d == 8 {
        "8"
    } else {
        "9"
    };
    assert(r@ =~= seq![digit_char(d as nat)]);
    r
}

fn decimal_string(n: u64) -> (s: String)
    ensures
        s@ == decimal(n as nat),
    decreases n,
{
    if n < 10 {
        digit_text(n).to_string()
    } else {
        let mut s = decimal_string(n / 10);
        s.append(digit_text(n % 10));
        assert(s@ =~= decimal((n / 10) as nat).push(digit_char((n % 10) as nat)));
        s
    }
}

/// The name under which a user's chime is filed. It reads back as that user.
pub fn file_name(user_id: u64) -> (name: String)
    ensures
        name@ == decimal(user_id as nat),
        parsed_id(name@) == Some(user_id),
{
    proof {
        lemma_file_name_round_trip(user_id);
    }
    decimal_string(user_id)
}

/// One file found in the store's directory.
pub struct ChimeFile {
    /// The file's name without its extension.
    pub stem: String,
    /// Where the file is.
    pub path: String,
}

/// The record that a directory listing gives: each file whose stem names a
/// user files that user's chime; of two files for one user the later counts.
pub open spec fn listing_index(files: Seq<ChimeFile>) -> Map<u64, String>
    decreases files.len(),
{
    if files.len() == 0 {
        Map::empty()
    } else {
        let rest = listing_index(files.drop_last());
        match parsed_id(files.last().stem@) {
            Some(user_id) => rest.insert(user_id, files.last().path),
            None => rest,
        }
    }
}

/// The record of a chime store that keeps one file per user in a directory.
pub struct FileChimeSink {
    dir: String,
    chimes: HashMap<u64, String>,
}

impl FileChimeSink {
    /// The store's directory.
    pub closed spec fn dir(&self) -> String {
        self.dir
    }

    /// Where each user's chime is, for the users that have one.
    pub closed spec fn paths(&self) -> Map<u64, String> {
        self.chimes@
    }

    /// The record of the store in `dir`, given the files found there.
    pub fn new(dir: String, files: Vec<ChimeFile>) -> (sink: Self)
        ensures
            sink.dir() == dir,
            sink.paths() == listing_index(files@),
    {
        let mut chimes: HashMap<u64, String> = HashMap::new();
        let mut files = files;
        let ghost all = files@;
        // Walk from the back so that each file can be moved out; entries
        // found later in the listing win, so an earlier one is only filed
        // where the user is not yet on record.
        let ghost mut done: Seq<ChimeFile> = Seq::empty();
        while files.len() > 0
            invariant
                all == files@ + done,
                forall|u: u64|
                    chimes@.contains_key(u) <==> #[trigger] listing_index(done).contains_key(u),
                forall|u: u64|
                    chimes@.contains_key(u) ==> chimes@[u] == #[trigger] listing_index(done)[u],
            decreases files.len(),
        {
            let file = files.pop().unwrap();
            proof {
                lemma_listing_prepend(file, done);
                assert(files@ + seq![file].add(done) =~= all);
                done = seq![file].add(done);
            }
            match parse_user_id(file.stem.as_str()) {
                Some(user_id) => {
                    if !chimes.contains_key(&user_id) {
                        chimes.insert(user_id, file.path);
                    }
                },
                None => {},
            }
        }
        proof {
            assert(done =~= all);
            assert(chimes@ =~= listing_index(all));
        }
        FileChimeSink { dir, chimes }
    }

    /// The store's directory.
    pub fn directory(&self) -> (r: &str)
        ensures
            r@ == self.dir()@,
    {
        self.dir.as_str()
    }

    /// Whether `user_id` has a chime on record.
    pub fn has_data(&self, user_id: u64) -> (r: bool)
        ensures
            r == self.paths().contains_key(user_id),
    {
        self.chimes.contains_key(&user_id)
    }

    /// Where the chime of `user_id` is, to be made playable.
    pub fn get_input(&self, user_id: u64) -> (r: Result<&String, ChimeSinkError>)
        ensures
            self.paths().contains_key(user_id) ==> r == Ok::<&String, ChimeSinkError>(
                &self.paths()[user_id],
            ),
            !self.paths().contains_key(user_id) ==> r == Err::<&String, ChimeSinkError>(
                ChimeSinkError::DataNotAvailable,
            ),
    {
        match self.chimes.get(&user_id) {
            Some(path) => Ok(path),
            None => Err(ChimeSinkError::DataNotAvailable),
        }
    }

    /// Strikes the chime of `user_id` from the record and returns where its
    /// file is, for the file to be removed.
    pub fn clear_data(&mut self, user_id: u64) -> (stale: Option<String>)
        ensures
            final(self).dir() == old(self).dir(),
            final(self).paths() == old(self).paths().remove(user_id),
            stale == (if old(self).paths().contains_key(user_id) {
                Some(old(self).paths()[user_id])
            } else {
                None
            }),
    {
        self.chimes.remove(&user_id)
    }

    /// Closes a save. `moved` tells whether the new file got to `path`.
    /// Where it did, the user's chime is on record there from now on. Where
    /// it did not, the save has failed and the user is left without a chime
    /// on record: whatever was filed before had to make room for the move.
    pub fn save_data(&mut self, user_id: u64, path: String, moved: bool) -> (r: Result<
        (),
        ChimeSinkError,
    >)
        ensures
            final(self).dir() == old(self).dir(),
            moved ==> r is Ok && final(self).paths() == old(self).paths().insert(user_id, path),
            !moved ==> r == Err::<(), ChimeSinkError>(ChimeSinkError::SaveError) && final(self).paths()
                == old(self).paths().remove(user_id),
    {
        if moved {
            self.chimes.insert(user_id, path);
            Ok(())
        } else {
            self.chimes.remove(&user_id);
            Err(ChimeSinkError::SaveError)
        }
    }
}

/// What making a chime playable came to.
pub fn playable(decoded: bool) -> (r: Result<(), ChimeSinkError>)
    ensures
        decoded ==> r is Ok,
        !decoded ==> r == Err::<(), ChimeSinkError>(ChimeSinkError::Playback),
{
    if decoded {
        Ok(())
    } else {
        Err(ChimeSinkError::Playback)
    }
}

proof fn lemma_listing_prepend(file: ChimeFile, rest: Seq<ChimeFile>)
    ensures
        listing_index(seq![file] + rest) == (match parsed_id(file.stem@) {
            Some(user_id) => if listing_index(rest).contains_key(user_id) {
                listing_index(rest)
            } else {
                listing_index(rest).insert(user_id, file.path)
            },
            None => listing_index(rest),
        }),
    decreases rest.len(),
{
    let all = seq![file] + rest;
    if rest.len() == 0 {
        assert(all.drop_last() =~= Seq::<ChimeFile>::empty());
        assert(all.last() == file);
        assert(listing_index(all.drop_last()) =~= Map::<u64, String>::empty());
    } else {
        lemma_listing_prepend(file, rest.drop_last());
        assert(all.drop_last() =~= seq![file] + rest.drop_last());
        assert(all.last() == rest.last());
        let inner = listing_index(rest.drop_last());
        match (parsed_id(file.stem@), parsed_id(rest.last().stem@)) {
            (Some(u), Some(v)) => {
                if u == v {
                    assert(listing_index(all) =~= listing_index(rest));
                } else if inner.contains_key(u) {
                } else {
                    assert(inner.insert(u, file.path).insert(v, rest.last().path)
                        =~= inner.insert(v, rest.last().path).insert(u, file.path));
                }
            },
            _ => {},
        }
    }
}

/// A save that went through shows in every later lookup, and a save that
/// failed leaves the user without a chime; no other user is touched either
/// way.
pub proof fn lemma_save_is_seen(before: FileChimeSink, user_id: u64, path: String, other: u64)
    requires
        other != user_id,
    ensures
        before.paths().insert(user_id, path).contains_key(user_id),
        before.paths().insert(user_id, path)[user_id] == path,
        !before.paths().remove(user_id).contains_key(user_id),
        before.paths().insert(user_id, path).contains_key(other) == before.paths().contains_key(
            other,
        ),
        before.paths().remove(user_id).contains_key(other) == before.paths().contains_key(other),
        before.paths().contains_key(other) ==> before.paths().insert(user_id, path)[other]
            == before.paths()[other] && before.paths().remove(user_id)[other]
            == before.paths()[other],
{
}

} // verus!
