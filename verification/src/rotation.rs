//! Log rotation: which file a record written at a given moment belongs to.
//!
//! A policy maps a timestamp to a bucket key, either one per calendar day or
//! one per fixed span of minutes within an hour. The key is a function of the
//! timestamp and the policy alone; [`RotationState`] only remembers the last
//! one.

use vstd::prelude::*;
use vstd::string::*;
use crate::clock::{
    date_text, digit_char, four_digits, two_digits, CivilTime, Timestamp,
};

verus! {

/// Width of a rotation bucket in minutes, at least one.
#[derive(Debug, Clone, Copy, PartialEq, Eq)]
pub struct BucketWidth {
    minutes: u32,
}

impl View for BucketWidth {
    type V = int;

    closed spec fn view(&self) -> int {
        self.minutes as int
    }
}

impl BucketWidth {
    #[verifier::type_invariant]
    spec fn well_formed(self) -> bool {
        self.minutes >= 1
    }

    /// A width of `minutes`, or `None` for zero.
    pub fn new(minutes: u32) -> (width: Option<BucketWidth>)
        ensures
            width is Some <==> minutes >= 1,
            width matches Some(w) ==> w@ == minutes,
    {
        if minutes == 0 {
            None
        } else {
            Some(BucketWidth { minutes })
        }
    }

    pub fn minutes(&self) -> (minutes: u32)
        ensures
            minutes == self@,
            minutes >= 1,
    {
        proof {
            use_type_invariant(self);
        }
        self.minutes
    }
}

/// How records are spread over log files.
#[derive(Debug, Clone, Copy, PartialEq, Eq)]
pub enum RotationPolicy {
    /// One file per calendar day.
    Daily,
    /// One file per span of minutes, counted from the start of each hour.
    MinuteBucket(BucketWidth),
}

impl RotationPolicy {
    /// Whether the policy's bucket width, if it has one, is at least a minute.
    pub open spec fn valid(self) -> bool {
        self matches RotationPolicy::MinuteBucket(width) ==> width@ >= 1
    }
}

/// The first minute of the bucket that `minute` falls into.
pub open spec fn bucket_start(minute: int, width: int) -> int
    recommends
        width >= 1,
{
    (minute / width) * width
}

/// The bucket key of a moment: the date, followed under a minute-bucket
/// policy by the hour and the first minute of the bucket.
pub open spec fn key_text(policy: RotationPolicy, t: CivilTime) -> Seq<char> {
    match policy {
        RotationPolicy::Daily => date_text(t),
        RotationPolicy::MinuteBucket(width) => date_text(t) + seq!['_'] + two_digits(t.hour)
            + seq!['-'] + two_digits(bucket_start(t.minute, width@)),
    }
}

/// The name of the log file for a moment.
pub open spec fn file_name_text(policy: RotationPolicy, t: CivilTime) -> Seq<char> {
    "sensor_data_"@ + key_text(policy, t) + ".json"@
}

/// Whether two moments fall into the same bucket.
pub open spec fn same_bucket(policy: RotationPolicy, a: CivilTime, b: CivilTime) -> bool {
    match policy {
        RotationPolicy::Daily => a.same_day(b),
        RotationPolicy::MinuteBucket(width) => a.same_day(b) && a.hour == b.hour && a.minute
            / width@ == b.minute / width@,
    }
}

/// A bucket starts no later than any minute that falls into it.
pub proof fn lemma_bucket_start_bounds(minute: int, width: int)
    requires
        0 <= minute,
        1 <= width,
    ensures
        0 <= bucket_start(minute, width) <= minute,
        minute - bucket_start(minute, width) < width,
        0 <= minute / width <= minute,
{
    assert(0 <= (minute / width) * width <= minute && minute - (minute / width) * width < width
        && 0 <= minute / width <= minute) by (nonlinear_arith)
        requires
            0 <= minute,
            1 <= width,
    ;
}

/// The text of one decimal digit.
fn digit_text(d: u32) -> (text: &'static str)
    requires
        d <= 9,
    ensures
        text@ == seq![digit_char(d as int)],
{
    proof {
        reveal_strlit("0");
        reveal_strlit("1");
        reveal_strlit("2");
        reveal_strlit("3");
        reveal_strlit("4");
        reveal_strlit("5");
        reveal_strlit("6");
        reveal_strlit("7");
        reveal_strlit("8");
        reveal_strlit("9");
    }
    let text = match d {
        0 => "0",
        1 => "1",
        2 => "2",
        3 => "3",
        4 => "4",
        5 => "5",
        6 => "6",
        7 => "7",
        8 => "8",
        _ => "9",
    };
    assert(text@ =~= seq![digit_char(d as int)]);
    text
}

/// Appends `n` as two decimal digits.
fn push_two_digits(out: &mut String, n: u32)
    requires
        n < 100,
    ensures
        final(out)@ == old(out)@ + two_digits(n as int),
{
    out.append(digit_text(n / 10));
    out.append(digit_text(n % 10));
    assert(out@ =~= old(out)@ + two_digits(n as int));
}

/// Computes the bucket key of a moment under a policy.
pub fn bucket_key(policy: &RotationPolicy, now: &Timestamp) -> (key: String)
    ensures
        key@ == key_text(*policy, now@),
{
    let stamp = now.text();
    proof {
        reveal_strlit("_");
        reveal_strlit("-");
    }
    let ghost t = now@;
    assert(stamp@.subrange(0, 10) =~= date_text(t));
    assert(stamp@.subrange(11, 13) =~= two_digits(t.hour));
    let mut key = stamp.as_str().substring_char(0, 10).to_owned();
    match policy {
        RotationPolicy::Daily => {},
        RotationPolicy::MinuteBucket(width) => {
            let minutes = width.minutes();
            proof {
                lemma_bucket_start_bounds(t.minute, minutes as int);
            }
            let start: u32 = (now.minute() / minutes) * minutes;
            key.append("_");
            key.append(stamp.as_str().substring_char(11, 13));
            key.append("-");
            push_two_digits(&mut key, start);
            assert(key@ =~= key_text(*policy, t));
        },
    }
    key
}

/// Computes the name of the log file that a record written at `now` goes to:
/// `sensor_data_<key>.json`.
pub fn log_file_name(policy: &RotationPolicy, now: &Timestamp) -> (name: String)
    ensures
        name@ == file_name_text(*policy, now@),
{
    let key = bucket_key(policy, now);
    let mut name = "sensor_data_".to_owned();
    name.append(key.as_str());
    name.append(".json");
    name
}

/// What a rotation state remembers.
pub struct RotationModel {
    pub policy: RotationPolicy,
    /// The key of the bucket that is being written to.
    pub key: Seq<char>,
    /// The moment at which that bucket was entered.
    pub rotated_at: CivilTime,
}

/// The active bucket of a log writer.
///
/// The remembered key always equals the key computed afresh from the moment
/// of the last rotation, so reading it back never disagrees with the policy.
#[derive(Debug)]
pub struct RotationState {
    policy: RotationPolicy,
    current_key: String,
    last_rotation: Timestamp,
}

impl View for RotationState {
    type V = RotationModel;

    closed spec fn view(&self) -> RotationModel {
        RotationModel {
            policy: self.policy,
            key: self.current_key@,
            rotated_at: self.last_rotation@,
        }
    }
}

impl RotationState {
    #[verifier::type_invariant]
    spec fn well_formed(self) -> bool {
        self.current_key@ == key_text(self.policy, self.last_rotation@)
    }

    /// Starts in the bucket that `now` falls into.
    pub fn start(policy: RotationPolicy, now: Timestamp) -> (state: RotationState)
        ensures
            state@.policy == policy,
            state@.key == key_text(policy, now@),
            state@.rotated_at == now@,
    {
        let current_key = bucket_key(&policy, &now);
        RotationState { policy, current_key, last_rotation: now }
    }

    /// Moves to the bucket that `now` falls into and reports whether that is
    /// another bucket than before.
    ///
    /// Afterwards the remembered key is the key of `now`, computed afresh.
    /// The moment of rotation changes only when the key does.
    pub fn advance(&mut self, now: Timestamp) -> (rotated: bool)
        ensures
            final(self)@.policy == old(self)@.policy,
            final(self)@.key == key_text(old(self)@.policy, now@),
            rotated == (old(self)@.key != key_text(old(self)@.policy, now@)),
            final(self)@.rotated_at == if rotated {
                now@
            } else {
                old(self)@.rotated_at
            },
    {
        proof {
            use_type_invariant(&*self);
        }
        let key = bucket_key(&self.policy, &now);
        if key == self.current_key {
            false
        } else {
            *self = RotationState { policy: self.policy, current_key: key, last_rotation: now };
            true
        }
    }

    /// The key of the active bucket. It equals the key of the moment of the
    /// last rotation.
    pub fn current_key(&self) -> (key: &str)
        ensures
            key@ == self@.key,
            key@ == key_text(self@.policy, self@.rotated_at),
    {
        proof {
            use_type_invariant(self);
        }
        self.current_key.as_str()
    }

    /// The name of the active log file: `sensor_data_<key>.json`.
    pub fn current_file_name(&self) -> (name: String)
        ensures
            name@ == "sensor_data_"@ + self@.key + ".json"@,
            name@ == file_name_text(self@.policy, self@.rotated_at),
    {
        proof {
            use_type_invariant(self);
        }
        let mut name = "sensor_data_".to_owned();
        name.append(self.current_key.as_str());
        name.append(".json");
        name
    }

    pub fn policy(&self) -> (policy: RotationPolicy)
        ensures
            policy == self@.policy,
    {
        self.policy
    }

    /// The moment at which the active bucket was entered.
    pub fn rotated_at(&self) -> (at: Timestamp)
        ensures
            at@ == self@.rotated_at,
    {
        self.last_rotation
    }
}

/// Two numbers below one hundred with the same two digits are equal.
pub proof fn lemma_two_digits_injective(a: int, b: int)
    requires
        0 <= a < 100,
        0 <= b < 100,
        two_digits(a) == two_digits(b),
    ensures
        a == b,
{
    assert(two_digits(a)[0] == two_digits(b)[0]);
    assert(two_digits(a)[1] == two_digits(b)[1]);
}

/// Two numbers below ten thousand with the same four digits are equal.
pub proof fn lemma_four_digits_injective(a: int, b: int)
    requires
        0 <= a < 10000,
        0 <= b < 10000,
        four_digits(a) == four_digits(b),
    ensures
        a == b,
{
    assert(four_digits(a)[0] == four_digits(b)[0]);
    assert(four_digits(a)[1] == four_digits(b)[1]);
    assert(four_digits(a)[2] == four_digits(b)[2]);
    assert(four_digits(a)[3] == four_digits(b)[3]);
}

/// Two valid moments have the same date text exactly when they fall on the
/// same day.
pub proof fn lemma_date_text_injective(a: CivilTime, b: CivilTime)
    requires
        a.is_valid(),
        b.is_valid(),
    ensures
        date_text(a) == date_text(b) <==> a.same_day(b),
{
    if date_text(a) == date_text(b) {
        assert(date_text(a).subrange(0, 4) =~= four_digits(a.year));
        assert(date_text(b).subrange(0, 4) =~= four_digits(b.year));
        assert(date_text(a).subrange(5, 7) =~= two_digits(a.month));
        assert(date_text(b).subrange(5, 7) =~= two_digits(b.month));
        assert(date_text(a).subrange(8, 10) =~= two_digits(a.day));
        assert(date_text(b).subrange(8, 10) =~= two_digits(b.day));
        lemma_four_digits_injective(a.year, b.year);
        lemma_two_digits_injective(a.month, b.month);
        lemma_two_digits_injective(a.day, b.day);
    }
}

/// Rotation law: under any policy two moments get the same key, and so the
/// same log file, exactly when they fall into the same bucket. For a
/// minute-bucket policy that is the same day, the same hour and the same
/// whole number of bucket widths into the hour.
pub proof fn law_key_identifies_bucket(policy: RotationPolicy, a: CivilTime, b: CivilTime)
    requires
        policy.valid(),
        a.is_valid(),
        b.is_valid(),
    ensures
        key_text(policy, a) == key_text(policy, b) <==> same_bucket(policy, a, b),
        file_name_text(policy, a) == file_name_text(policy, b) <==> same_bucket(policy, a, b),
{
    lemma_date_text_injective(a, b);
    let ka = key_text(policy, a);
    let kb = key_text(policy, b);
    match policy {
        RotationPolicy::Daily => {},
        RotationPolicy::MinuteBucket(width) => {
            let w = width@;
            lemma_bucket_start_bounds(a.minute, w);
            lemma_bucket_start_bounds(b.minute, w);
            let sa = bucket_start(a.minute, w);
            let sb = bucket_start(b.minute, w);
            assert(ka.subrange(0, 10) =~= date_text(a));
            assert(kb.subrange(0, 10) =~= date_text(b));
            assert(ka.subrange(11, 13) =~= two_digits(a.hour));
            assert(kb.subrange(11, 13) =~= two_digits(b.hour));
            assert(ka.subrange(14, 16) =~= two_digits(sa));
            assert(kb.subrange(14, 16) =~= two_digits(sb));
            if ka == kb {
                lemma_two_digits_injective(a.hour, b.hour);
                lemma_two_digits_injective(sa, sb);
                assert(a.minute / w == b.minute / w) by (nonlinear_arith)
                    requires
                        (a.minute / w) * w == (b.minute / w) * w,
                        w >= 1,
                ;
            }
            if same_bucket(policy, a, b) {
                assert(sa == sb);
                assert(ka =~= kb);
            }
        },
    }
    let fa = file_name_text(policy, a);
    let fb = file_name_text(policy, b);
    let prefix = "sensor_data_"@;
    if fa == fb {
        assert(ka.len() == kb.len());
        assert(fa.subrange(prefix.len() as int, (prefix.len() + ka.len()) as int) =~= ka);
        assert(fb.subrange(prefix.len() as int, (prefix.len() + kb.len()) as int) =~= kb);
    }
}

} // verus!
