//! Decoding of query strings into the parameters of a request.
//!
//! A query string is first split into its pairs of key and value, percent
//! escapes resolved. Each parameter is then looked up by its key: a key that
//! does not occur leaves the parameter absent, keys that are not known are
//! passed over, and a value that cannot be read, or a key that occurs twice,
//! is bad input. Where both hold of one key, the unreadable first value is
//! what the failure names.

use actix_web::error::QueryPayloadError;
use actix_web::web::Query;
use vstd::prelude::*;
use vstd::string::{StrSliceExecFns, StringExecFns};
use crate::outcome::{LocalError, LocalErrorView};
use crate::policy::{SnapshotPriority, SnapshotUploadingParam, SnapshottingParam, WaitTimeout};

verus! {

/// The pairs of key and value that a query string in the
/// `application/x-www-form-urlencoded` format decodes to, in their order, or
/// `None` where the decoder rejects the string.
pub uninterp spec fn query_pairs(query: Seq<char>) -> Option<Seq<(Seq<char>, Seq<char>)>>;

/// The error with which actix-web rejects a query string.
#[verifier::external_type_specification]
#[verifier::external_body]
pub struct ExQueryPayloadError(QueryPayloadError);

/// `actix_web::web::Query::from_query` at the type of a list of pairs of
/// strings: the pairs of the query string as `serde_urlencoded` decodes
/// them, or the error that it reports.
#[verifier::external_body]
fn decode_pairs(query: &str) -> (pairs: Result<Vec<(String, String)>, QueryPayloadError>)
    ensures
        decoded_pairs(pairs) == query_pairs(query@),
{
    match Query::<Vec<(String, String)>>::from_query(query) {
        Ok(decoded) => Ok(decoded.into_inner()),
        Err(e) => Err(e),
    }
}

/// The pairs that came out of the decoder, by their view.
pub open spec fn decoded_pairs(pairs: Result<Vec<(String, String)>, QueryPayloadError>) -> Option<
    Seq<(Seq<char>, Seq<char>)>,
> {
    match pairs {
        Ok(p) => Some(p.deep_view()),
        Err(_) => None,
    }
}

/// Whether `c` is one of the digits `0` to `9`.
pub open spec fn is_digit(c: char) -> bool {
    '0' <= c && c <= '9'
}

/// The number that a string of digits stands for in base ten.
pub open spec fn decimal(digits: Seq<char>) -> nat
    decreases digits.len(),
{
    if digits.len() == 0 {
        0
    } else {
        decimal(digits.drop_last()) * 10 + (digits.last() as u32 - '0' as u32) as nat
    }
}

/// `text` without a leading plus sign.
pub open spec fn unsigned_part(text: Seq<char>) -> Seq<char> {
    if text.len() > 0 && text[0] == '+' {
        text.subrange(1, text.len() as int)
    } else {
        text
    }
}

/// The unsigned 64-bit number that `text` is read as: one or more decimal
/// digits, with or without a plus sign before them, that stand for a number
/// within range. Anything else is no number.
pub open spec fn parsed_u64(text: Seq<char>) -> Option<u64> {
    let digits = unsigned_part(text);
    if digits.len() > 0 && (forall|i: int| 0 <= i < digits.len() ==> is_digit(#[trigger] digits[i]))
        && decimal(digits) <= u64::MAX {
        Some(decimal(digits) as u64)
    } else {
        None
    }
}

/// The truth value that `text` is read as: `true` or `false`, spelled so.
pub open spec fn parsed_bool(text: Seq<char>) -> Option<bool> {
    if text == "true"@ {
        Some(true)
    } else if text == "false"@ {
        Some(false)
    } else {
        None
    }
}

/// The priority that `text` is read as: `snapshot` or `replica`, spelled so.
pub open spec fn parsed_priority(text: Seq<char>) -> Option<SnapshotPriority> {
    if text == "snapshot"@ {
        Some(SnapshotPriority::Snapshot)
    } else if text == "replica"@ {
        Some(SnapshotPriority::Replica)
    } else {
        None
    }
}

/// A longer string of digits stands for no smaller a number than its
/// beginning.
pub proof fn lemma_decimal_grows(digits: Seq<char>, k: int)
    requires
        0 <= k <= digits.len(),
    ensures
        decimal(digits.subrange(0, k)) <= decimal(digits),
    decreases digits.len() - k,
{
    if k == digits.len() {
        assert(digits.subrange(0, k) =~= digits);
    } else {
        lemma_decimal_grows(digits, k + 1);
        assert(digits.subrange(0, k + 1).drop_last() =~= digits.subrange(0, k));
    }
}

/// Reads an unsigned 64-bit number in base ten.
pub fn parse_u64(text: &str) -> (number: Option<u64>)
    ensures
        number == parsed_u64(text@),
{
    let n = text.unicode_len();
    let start: usize = if n > 0 && text.get_char(0) == '+' {
        1
    } else {
        0
    };
    let ghost digits = unsigned_part(text@);
    if start == n {
        return None;
    }
    let mut value: u64 = 0;
    let mut i: usize = start;
    while i < n
        invariant
            start <= i <= n,
            n == text@.len(),
            digits == unsigned_part(text@),
            digits.len() == n - start,
            forall|j: int| 0 <= j < n - start ==> digits[j] == text@[j + start],
            forall|j: int| 0 <= j < i - start ==> is_digit(#[trigger] digits[j]),
            value == decimal(digits.subrange(0, i - start)),
        decreases n - i,
    {
        let c = text.get_char(i);
        assert(c == digits[i - start]);
        if !('0' <= c && c <= '9') {
            assert(!is_digit(digits[i - start]));
            return None;
        }
        let digit: u64 = (c as u32 - '0' as u32) as u64;
        proof {
            let longer = digits.subrange(0, i - start + 1);
            assert(longer.drop_last() =~= digits.subrange(0, i - start));
            assert(longer.last() == c);
            assert(decimal(longer) == value * 10 + digit);
            lemma_decimal_grows(digits, i - start + 1);
        }
        let scaled = match value.checked_mul(10) {
            Some(scaled) => scaled,
            None => {
                return None;
            },
        };
        value = match scaled.checked_add(digit) {
            Some(sum) => sum,
            None => {
                return None;
            },
        };
        i = i + 1;
    }
    assert(digits.subrange(0, n - start) =~= digits);
    Some(value)
}

/// Reads a truth value.
pub fn parse_bool(text: &str) -> (value: Option<bool>)
    ensures
        value == parsed_bool(text@),
{
    let text = text.to_owned();
    if text == "true".to_owned() {
        Some(true)
    } else if text == "false".to_owned() {
        Some(false)
    } else {
        None
    }
}

/// Reads a snapshot priority.
pub fn parse_priority(text: &str) -> (value: Option<SnapshotPriority>)
    ensures
        value == parsed_priority(text@),
{
    let text = text.to_owned();
    if text == "snapshot".to_owned() {
        Some(SnapshotPriority::Snapshot)
    } else if text == "replica".to_owned() {
        Some(SnapshotPriority::Replica)
    } else {
        None
    }
}

/// The values that `pairs` give for `key`, in their order.
pub open spec fn values_of(pairs: Seq<(Seq<char>, Seq<char>)>, key: Seq<char>) -> Seq<Seq<char>>
    decreases pairs.len(),
{
    if pairs.len() == 0 {
        Seq::empty()
    } else {
        let before = values_of(pairs.drop_last(), key);
        if pairs.last().0 == key {
            before.push(pairs.last().1)
        } else {
            before
        }
    }
}

/// Collects the values that `pairs` give for `key`, in their order.
pub fn values_for(pairs: &Vec<(String, String)>, key: &str) -> (values: Vec<String>)
    ensures
        values.deep_view() == values_of(pairs.deep_view(), key@),
{
    let key = key.to_owned();
    let mut values: Vec<String> = Vec::new();
    let mut i: usize = 0;
    while i < pairs.len()
        invariant
            i <= pairs.len(),
            values.deep_view() == values_of(pairs.deep_view().subrange(0, i as int), key@),
        decreases pairs.len() - i,
    {
        let ghost before = values.deep_view();
        assert(pairs.deep_view().subrange(0, i + 1).drop_last() =~= pairs.deep_view().subrange(
            0,
            i as int,
        ));
        if pairs[i].0 == key {
            let value = pairs[i].1.clone();
            values.push(value);
            assert(values.deep_view() =~= before.push(pairs[i as int].1@));
        }
        i = i + 1;
    }
    assert(pairs.deep_view().subrange(0, pairs.len() as int) =~= pairs.deep_view());
    values
}

/// The message of the failure to read the value of `field`.
pub open spec fn invalid_value(field: Seq<char>) -> Seq<char> {
    "Query deserialize error: invalid value for field `"@ + field + "`"@
}

/// The message of the failure over a second occurrence of `field`.
pub open spec fn duplicate_field(field: Seq<char>) -> Seq<char> {
    "Query deserialize error: duplicate field `"@ + field + "`"@
}

/// The message of the failure over a query string that has no pairs.
pub open spec fn malformed_query() -> Seq<char> {
    "Query deserialize error: malformed query string"@
}

/// What the values given for `field` decode to, where `read` reads one
/// value: absent if there is none, bad input if the first cannot be read or
/// if there is more than one, else what the one value reads as.
pub open spec fn decoded<V>(
    values: Seq<Seq<char>>,
    field: Seq<char>,
    read: spec_fn(Seq<char>) -> Option<V>,
) -> Result<Option<V>, LocalErrorView> {
    if values.len() == 0 {
        Ok(None)
    } else {
        match read(values[0]) {
            None => Err(LocalErrorView::BadInput(invalid_value(field))),
            Some(v) => if values.len() > 1 {
                Err(LocalErrorView::BadInput(duplicate_field(field)))
            } else {
                Ok(Some(v))
            },
        }
    }
}

/// The view of a decoded parameter.
pub open spec fn decoded_view<V>(decoded: Result<Option<V>, LocalError>) -> Result<
    Option<V>,
    LocalErrorView,
> {
    match decoded {
        Ok(v) => Ok(v),
        Err(e) => Err(e@),
    }
}

fn invalid_value_error(field: &str) -> (e: LocalError)
    ensures
        e@ == LocalErrorView::BadInput(invalid_value(field@)),
{
    LocalError::BadInput(
        "Query deserialize error: invalid value for field `".to_owned().concat(field).concat("`"),
    )
}

fn duplicate_field_error(field: &str) -> (e: LocalError)
    ensures
        e@ == LocalErrorView::BadInput(duplicate_field(field@)),
{
    LocalError::BadInput(
        "Query deserialize error: duplicate field `".to_owned().concat(field).concat("`"),
    )
}

fn malformed_query_error() -> (e: LocalError)
    ensures
        e@ == LocalErrorView::BadInput(malformed_query()),
{
    LocalError::BadInput("Query deserialize error: malformed query string".to_owned())
}

/// Decodes the `timeout` parameter.
pub fn decode_timeout(pairs: &Vec<(String, String)>) -> (timeout: Result<Option<u64>, LocalError>)
    ensures
        decoded_view(timeout) == decoded(
            values_of(pairs.deep_view(), "timeout"@),
            "timeout"@,
            |text: Seq<char>| parsed_u64(text),
        ),
{
    let values = values_for(pairs, "timeout");
    if values.len() == 0 {
        return Ok(None);
    }
    assert(values.deep_view()[0] == values[0]@);
    match parse_u64(values[0].as_str()) {
        None => Err(invalid_value_error("timeout")),
        Some(seconds) => if values.len() > 1 {
            Err(duplicate_field_error("timeout"))
        } else {
            Ok(Some(seconds))
        },
    }
}

/// Decodes the `wait` parameter.
pub fn decode_wait(pairs: &Vec<(String, String)>) -> (wait: Result<Option<bool>, LocalError>)
    ensures
        decoded_view(wait) == decoded(
            values_of(pairs.deep_view(), "wait"@),
            "wait"@,
            |text: Seq<char>| parsed_bool(text),
        ),
{
    let values = values_for(pairs, "wait");
    if values.len() == 0 {
        return Ok(None);
    }
    assert(values.deep_view()[0] == values[0]@);
    match parse_bool(values[0].as_str()) {
        None => Err(invalid_value_error("wait")),
        Some(wait) => if values.len() > 1 {
            Err(duplicate_field_error("wait"))
        } else {
            Ok(Some(wait))
        },
    }
}

/// Decodes the `priority` parameter.
pub fn decode_priority(pairs: &Vec<(String, String)>) -> (priority: Result<
    Option<SnapshotPriority>,
    LocalError,
>)
    ensures
        decoded_view(priority) == decoded(
            values_of(pairs.deep_view(), "priority"@),
            "priority"@,
            |text: Seq<char>| parsed_priority(text),
        ),
{
    let values = values_for(pairs, "priority");
    if values.len() == 0 {
        return Ok(None);
    }
    assert(values.deep_view()[0] == values[0]@);
    match parse_priority(values[0].as_str()) {
        None => Err(invalid_value_error("priority")),
        Some(priority) => if values.len() > 1 {
            Err(duplicate_field_error("priority"))
        } else {
            Ok(Some(priority))
        },
    }
}

/// The parameters of a collection-meta request that `pairs` decode to.
pub open spec fn wait_timeout_of(pairs: Seq<(Seq<char>, Seq<char>)>) -> Result<
    WaitTimeout,
    LocalErrorView,
> {
    match decoded(values_of(pairs, "timeout"@), "timeout"@, |text: Seq<char>| parsed_u64(text)) {
        Ok(timeout) => Ok(WaitTimeout { timeout }),
        Err(e) => Err(e),
    }
}

/// The parameters of a snapshot request that `pairs` decode to.
pub open spec fn snapshotting_param_of(pairs: Seq<(Seq<char>, Seq<char>)>) -> Result<
    SnapshottingParam,
    LocalErrorView,
> {
    match decoded(values_of(pairs, "wait"@), "wait"@, |text: Seq<char>| parsed_bool(text)) {
        Ok(wait) => Ok(SnapshottingParam { wait }),
        Err(e) => Err(e),
    }
}

/// The parameters of a snapshot upload that `pairs` decode to. Where both
/// parameters are bad, the failure is that of `wait`.
pub open spec fn snapshot_uploading_param_of(pairs: Seq<(Seq<char>, Seq<char>)>) -> Result<
    SnapshotUploadingParam,
    LocalErrorView,
> {
    match decoded(values_of(pairs, "wait"@), "wait"@, |text: Seq<char>| parsed_bool(text)) {
        Err(e) => Err(e),
        Ok(wait) => match decoded(
            values_of(pairs, "priority"@),
            "priority"@,
            |text: Seq<char>| parsed_priority(text),
        ) {
            Err(e) => Err(e),
            Ok(priority) => Ok(SnapshotUploadingParam { wait, priority }),
        },
    }
}

/// What a query string decodes to, where `of` says what its pairs decode
/// to: a string without pairs is bad input.
pub open spec fn from_query_string<P>(
    query: Seq<char>,
    of: spec_fn(Seq<(Seq<char>, Seq<char>)>) -> Result<P, LocalErrorView>,
) -> Result<P, LocalErrorView> {
    match query_pairs(query) {
        Some(pairs) => of(pairs),
        None => Err(LocalErrorView::BadInput(malformed_query())),
    }
}

/// The view of decoded parameters.
pub open spec fn params_view<P>(params: Result<P, LocalError>) -> Result<P, LocalErrorView> {
    match params {
        Ok(p) => Ok(p),
        Err(e) => Err(e@),
    }
}

impl WaitTimeout {
    /// Decodes the parameters from the pairs of a query string.
    pub fn from_pairs(pairs: &Vec<(String, String)>) -> (params: Result<WaitTimeout, LocalError>)
        ensures
            params_view(params) == wait_timeout_of(pairs.deep_view()),
    {
        match decode_timeout(pairs) {
            Ok(timeout) => Ok(WaitTimeout { timeout }),
            Err(e) => Err(e),
        }
    }

    /// Decodes the parameters from a query string.
    pub fn from_query(query: &str) -> (params: Result<WaitTimeout, LocalError>)
        ensures
            params_view(params) == from_query_string(
                query@,
                |pairs: Seq<(Seq<char>, Seq<char>)>| wait_timeout_of(pairs),
            ),
    {
        match decode_pairs(query) {
            Ok(pairs) => WaitTimeout::from_pairs(&pairs),
            Err(_) => Err(malformed_query_error()),
        }
    }
}

impl SnapshottingParam {
    /// Decodes the parameters from the pairs of a query string.
    pub fn from_pairs(pairs: &Vec<(String, String)>) -> (params: Result<
        SnapshottingParam,
        LocalError,
    >)
        ensures
            params_view(params) == snapshotting_param_of(pairs.deep_view()),
    {
        match decode_wait(pairs) {
            Ok(wait) => Ok(SnapshottingParam { wait }),
            Err(e) => Err(e),
        }
    }

    /// Decodes the parameters from a query string.
    pub fn from_query(query: &str) -> (params: Result<SnapshottingParam, LocalError>)
        ensures
            params_view(params) == from_query_string(
                query@,
                |pairs: Seq<(Seq<char>, Seq<char>)>| snapshotting_param_of(pairs),
            ),
    {
        match decode_pairs(query) {
            Ok(pairs) => SnapshottingParam::from_pairs(&pairs),
            Err(_) => Err(malformed_query_error()),
        }
    }
}

impl SnapshotUploadingParam {
    /// Decodes the parameters from the pairs of a query string.
    pub fn from_pairs(pairs: &Vec<(String, String)>) -> (params: Result<
        SnapshotUploadingParam,
        LocalError,
    >)
        ensures
            params_view(params) == snapshot_uploading_param_of(pairs.deep_view()),
    {
        let wait = match decode_wait(pairs) {
            Ok(wait) => wait,
            Err(e) => {
                return Err(e);
            },
        };
        match decode_priority(pairs) {
            Ok(priority) => Ok(SnapshotUploadingParam { wait, priority }),
            Err(e) => Err(e),
        }
    }

    /// Decodes the parameters from a query string.
    pub fn from_query(query: &str) -> (params: Result<SnapshotUploadingParam, LocalError>)
        ensures
            params_view(params) == from_query_string(
                query@,
                |pairs: Seq<(Seq<char>, Seq<char>)>| snapshot_uploading_param_of(pairs),
            ),
    {
        match decode_pairs(query) {
            Ok(pairs) => SnapshotUploadingParam::from_pairs(&pairs),
            Err(_) => Err(malformed_query_error()),
        }
    }
}

} // verus!
