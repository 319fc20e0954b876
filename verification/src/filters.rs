//! Message filters: predicates over a message, combinators over predicates,
//! and an erased form that holds any of them behind one type.

use crate::message::{MessageView, OwnedMessage};
use crate::text::{chars_of, contains_text, has_substring};
use vstd::prelude::*;

verus! {

/// The subject rule: the message has a subject, and it is exactly `subject`.
pub open spec fn subject_matches(subject: Seq<char>, msg: MessageView) -> bool {
    msg.subject == Some(subject)
}

/// The sender rule: the message has a sender address, and `fragment` occurs
/// in it.
pub open spec fn sender_matches(fragment: Seq<char>, msg: MessageView) -> bool {
    match msg.sender {
        Some(address) => contains_text(address, fragment),
        None => false,
    }
}

/// An instant: whole seconds since the Unix epoch and the nanoseconds past
/// them. Instants are ordered by seconds first, then nanoseconds.
#[derive(Clone, Copy, Debug, PartialEq, Eq, Structural)]
pub struct Timestamp {
    pub secs: i64,
    pub nanos: u32,
}

/// Which side of the threshold a date filter accepts.
#[derive(Clone, Copy, Debug, PartialEq, Eq, Structural)]
pub enum DateFilterMode {
    /// Strictly after the threshold.
    Since,
    /// Strictly before the threshold.
    Earlier,
}

/// Whether `chrono` can represent the instant `secs` seconds after the Unix
/// epoch as a `DateTime<Utc>`.
pub uninterp spec fn chrono_represents(secs: i64) -> bool;

/// The date rule for a message dated at the whole second `secs`: strictly
/// after the threshold for `Since`, strictly before it for `Earlier`.
pub open spec fn date_accepts(mode: DateFilterMode, threshold: Timestamp, secs: i64) -> bool {
    match mode {
        DateFilterMode::Since => secs > threshold.secs,
        DateFilterMode::Earlier => secs < threshold.secs || (secs == threshold.secs && 0
            < threshold.nanos),
    }
}

/// The date rule: the message has a date, the date is an instant that
/// `chrono` represents, and it lies on the side of the threshold that `mode`
/// names.
pub open spec fn date_matches(mode: DateFilterMode, threshold: Timestamp, msg: MessageView) -> bool {
    match msg.date {
        Some(secs) => chrono_represents(secs) && date_accepts(mode, threshold, secs),
        None => false,
    }
}

/// Whether `regex` accepts `pattern` as a regular expression.
pub uninterp spec fn regex_compiles(pattern: Seq<char>) -> bool;

/// Whether the regular expression `pattern` has a match in `text`.
pub uninterp spec fn regex_is_match(pattern: Seq<char>, text: Seq<char>) -> bool;

/// The text a regular expression is matched against: the HTML body, or the
/// empty text where the message has none.
pub open spec fn body_text(msg: MessageView) -> Seq<char> {
    match msg.body_html {
        Some(body) => body,
        None => Seq::empty(),
    }
}

/// The regex rule: the pattern has a match in the HTML body of the message.
pub open spec fn regex_matches(pattern: Seq<char>, msg: MessageView) -> bool {
    regex_is_match(pattern, body_text(msg))
}

/// Calls `chrono::DateTime::<Utc>::from_timestamp(secs, 0)` and reports
/// whether it returned a value. It returns `None` on an out-of-range number
/// of seconds, which is a function of `secs` alone.
#[verifier::external_body]
fn chrono_has_instant(secs: i64) -> (representable: bool)
    ensures
        representable == chrono_represents(secs),
{
    chrono::DateTime::<chrono::Utc>::from_timestamp(secs, 0).is_some()
}

/// Reads the clock with `chrono::Utc::now` and hands back the instant as
/// `DateTime::timestamp` and `DateTime::timestamp_subsec_nanos` give it.
/// Nothing is claimed of the result.
#[verifier::external_body]
fn chrono_now() -> (now: Timestamp) {
    let now = chrono::Utc::now();
    Timestamp { secs: now.timestamp(), nanos: now.timestamp_subsec_nanos() }
}

/// Calls `regex::Regex::new(pattern)` and reports whether it returned `Ok`.
#[verifier::external_body]
fn regex_accepts(pattern: &str) -> (compiles: bool)
    ensures
        compiles == regex_compiles(pattern@),
{
    regex::Regex::new(pattern).is_ok()
}

/// Compiles `pattern` with `regex::Regex::new` and calls `Regex::is_match`
/// on `text`. The pattern must be one that compiles.
#[verifier::external_body]
fn regex_search(pattern: &str, text: &str) -> (found: bool)
    requires
        regex_compiles(pattern@),
    ensures
        found == regex_is_match(pattern@, text@),
{
    regex::Regex::new(pattern).unwrap().is_match(text)
}

/// A predicate over messages. `filter` computes it; `matches` is what it means.
pub trait Filter: Send + Sync {
    /// Whether the filter accepts a message with this value.
    spec fn matches(&self, msg: MessageView) -> bool;

    /// Whether the filter accepts `msg`.
    fn filter(&self, msg: &OwnedMessage) -> (matched: bool)
        ensures
            matched == self.matches(msg@),
    ;

    /// The same predicate behind the erased type.
    fn dynamize(self) -> (erased: DynFilter) where Self: Sized + 'static
        ensures
            forall|msg: MessageView| #[trigger] erased.accepts(msg) == self.matches(msg),
    ;
}

/// Matches messages whose subject is exactly the given text.
pub struct Subject {
    subject: String,
}

impl Subject {
    pub closed spec fn text(&self) -> Seq<char> {
        self.subject@
    }

    pub fn new(subject: String) -> (rule: Self)
        ensures
            rule.text() == subject@,
    {
        Self { subject }
    }

    fn check(&self, msg: &OwnedMessage) -> (matched: bool)
        ensures
            matched == subject_matches(self.text(), msg@),
    {
        match msg.subject() {
            Some(subject) => *subject == self.subject,
            None => false,
        }
    }
}

/// Matches messages whose sender address contains the given text.
pub struct Sender {
    sender: String,
}

impl Sender {
    pub closed spec fn text(&self) -> Seq<char> {
        self.sender@
    }

    pub fn new(name: String) -> (rule: Self)
        ensures
            rule.text() == name@,
    {
        Self { sender: name }
    }

    fn check(&self, msg: &OwnedMessage) -> (matched: bool)
        ensures
            matched == sender_matches(self.text(), msg@),
    {
        match msg.sender() {
            Some(address) => {
                let hay = chars_of(address.as_str());
                let needle = chars_of(self.sender.as_str());
                has_substring(&hay, &needle)
            },
            None => false,
        }
    }
}

/// Matches messages dated strictly on one side of a threshold.
pub struct DateFilter {
    mode: DateFilterMode,
    date: Timestamp,
}

impl DateFilter {
    pub closed spec fn mode(&self) -> DateFilterMode {
        self.mode
    }

    pub closed spec fn threshold(&self) -> Timestamp {
        self.date
    }

    /// Accepts messages dated strictly after `date`.
    pub fn since(date: Timestamp) -> (rule: Self)
        ensures
            rule.mode() == DateFilterMode::Since,
            rule.threshold() == date,
    {
        Self { mode: DateFilterMode::Since, date }
    }

    /// Accepts messages dated strictly before `date`.
    pub fn earlier(date: Timestamp) -> (rule: Self)
        ensures
            rule.mode() == DateFilterMode::Earlier,
            rule.threshold() == date,
    {
        Self { mode: DateFilterMode::Earlier, date }
    }

    /// Accepts messages dated strictly after the moment of the call.
    pub fn since_now() -> (rule: Self)
        ensures
            rule.mode() == DateFilterMode::Since,
    {
        Self::since(chrono_now())
    }

    /// The decision for a message dated at `secs`, given whether `chrono`
    /// represents that instant.
    pub fn decide(&self, secs: i64, representable: bool) -> (matched: bool)
        ensures
            matched == (representable && date_accepts(self.mode(), self.threshold(), secs)),
    {
        if !representable {
            return false;
        }
        match self.mode {
            DateFilterMode::Since => secs > self.date.secs,
            DateFilterMode::Earlier => secs < self.date.secs || (secs == self.date.secs && 0
                < self.date.nanos),
        }
    }

    fn check(&self, msg: &OwnedMessage) -> (matched: bool)
        ensures
            matched == date_matches(self.mode(), self.threshold(), msg@),
    {
        match msg.date() {
            Some(secs) => self.decide(secs, chrono_has_instant(secs)),
            None => false,
        }
    }
}

/// Matches messages whose HTML body has a match of a regular expression.
pub struct RegexFilter {
    pattern: String,
}

impl RegexFilter {
    #[verifier::type_invariant]
    spec fn compiles(self) -> bool {
        regex_compiles(self.pattern@)
    }

    pub closed spec fn pattern(&self) -> Seq<char> {
        self.pattern@
    }

    /// The filter for `pattern`, where it is a regular expression.
    pub fn new(pattern: String) -> (rule: Option<Self>)
        ensures
            rule is Some == regex_compiles(pattern@),
            rule matches Some(r) ==> r.pattern() == pattern@,
    {
        if regex_accepts(pattern.as_str()) {
            Some(Self { pattern })
        } else {
            None
        }
    }

    /// The text of `msg` that the pattern is matched against.
    pub fn subject_text(msg: &OwnedMessage) -> (text: String)
        ensures
            text@ == body_text(msg@),
    {
        match msg.body_html() {
            Some(body) => body.clone(),
            None => String::new(),
        }
    }

    fn check(&self, msg: &OwnedMessage) -> (matched: bool)
        ensures
            matched == regex_matches(self.pattern(), msg@),
    {
        proof {
            use_type_invariant(self);
        }
        let text = Self::subject_text(msg);
        regex_search(self.pattern.as_str(), text.as_str())
    }
}

/// Any filter of this library, behind one type.
pub enum DynFilter {
    /// Accepts every message.
    Everything,
    Subject(Subject),
    Sender(Sender),
    Date(DateFilter),
    Regex(RegexFilter),
    And(Box<DynFilter>, Box<DynFilter>),
    Or(Box<DynFilter>, Box<DynFilter>),
}

impl DynFilter {
    /// Whether the erased filter accepts a message with this value.
    pub open spec fn accepts(&self, msg: MessageView) -> bool
        decreases self,
    {
        match self {
            DynFilter::Everything => true,
            DynFilter::Subject(rule) => subject_matches(rule.text(), msg),
            DynFilter::Sender(rule) => sender_matches(rule.text(), msg),
            DynFilter::Date(rule) => date_matches(rule.mode(), rule.threshold(), msg),
            DynFilter::Regex(rule) => regex_matches(rule.pattern(), msg),
            DynFilter::And(first, second) => first.accepts(msg) && second.accepts(msg),
            DynFilter::Or(first, second) => first.accepts(msg) || second.accepts(msg),
        }
    }

    fn check(&self, msg: &OwnedMessage) -> (matched: bool)
        ensures
            matched == self.accepts(msg@),
        decreases self,
    {
        match self {
            DynFilter::Everything => true,
            DynFilter::Subject(rule) => rule.check(msg),
            DynFilter::Sender(rule) => rule.check(msg),
            DynFilter::Date(rule) => rule.check(msg),
            DynFilter::Regex(rule) => rule.check(msg),
            DynFilter::And(first, second) => first.check(msg) && second.check(msg),
            DynFilter::Or(first, second) => first.check(msg) || second.check(msg),
        }
    }
}

impl Filter for DynFilter {
    open spec fn matches(&self, msg: MessageView) -> bool {
        self.accepts(msg)
    }

    fn filter(&self, msg: &OwnedMessage) -> (matched: bool) {
        self.check(msg)
    }

    fn dynamize(self) -> (erased: DynFilter) {
        self
    }
}

impl Filter for () {
    open spec fn matches(&self, msg: MessageView) -> bool {
        true
    }

    fn filter(&self, msg: &OwnedMessage) -> (matched: bool) {
        true
    }

    fn dynamize(self) -> (erased: DynFilter) {
        DynFilter::Everything
    }
}

/// An optional filter: with no filter, every message is accepted.
impl<F: Filter + 'static> Filter for Option<F> {
    open spec fn matches(&self, msg: MessageView) -> bool {
        match self {
            Some(rule) => rule.matches(msg),
            None => true,
        }
    }

    fn filter(&self, msg: &OwnedMessage) -> (matched: bool) {
        match self {
            Some(rule) => rule.filter(msg),
            None => true,
        }
    }

    fn dynamize(self) -> (erased: DynFilter) {
        match self {
            Some(rule) => rule.dynamize(),
            None => DynFilter::Everything,
        }
    }
}

impl Filter for Subject {
    open spec fn matches(&self, msg: MessageView) -> bool {
        subject_matches(self.text(), msg)
    }

    fn filter(&self, msg: &OwnedMessage) -> (matched: bool) {
        self.check(msg)
    }

    fn dynamize(self) -> (erased: DynFilter) {
        DynFilter::Subject(self)
    }
}

impl Filter for Sender {
    open spec fn matches(&self, msg: MessageView) -> bool {
        sender_matches(self.text(), msg)
    }

    fn filter(&self, msg: &OwnedMessage) -> (matched: bool) {
        self.check(msg)
    }

    fn dynamize(self) -> (erased: DynFilter) {
        DynFilter::Sender(self)
    }
}

impl Filter for DateFilter {
    open spec fn matches(&self, msg: MessageView) -> bool {
        date_matches(self.mode(), self.threshold(), msg)
    }

    fn filter(&self, msg: &OwnedMessage) -> (matched: bool) {
        self.check(msg)
    }

    fn dynamize(self) -> (erased: DynFilter) {
        DynFilter::Date(self)
    }
}

impl Filter for RegexFilter {
    open spec fn matches(&self, msg: MessageView) -> bool {
        regex_matches(self.pattern(), msg)
    }

    fn filter(&self, msg: &OwnedMessage) -> (matched: bool) {
        self.check(msg)
    }

    fn dynamize(self) -> (erased: DynFilter) {
        DynFilter::Regex(self)
    }
}

/// Matches where both filters match. The second is asked only where the
/// first has matched.
pub struct And<First, Second> {
    first_filter: First,
    second_filter: Second,
}

impl<F, S> And<F, S> {
    pub closed spec fn first(&self) -> F {
        self.first_filter
    }

    pub closed spec fn second(&self) -> S {
        self.second_filter
    }

    pub fn new(f: F, s: S) -> (both: Self)
        ensures
            both.first() == f,
            both.second() == s,
    {
        Self { first_filter: f, second_filter: s }
    }
}

impl<First: Filter + 'static, Second: Filter + 'static> Filter for And<First, Second> {
    open spec fn matches(&self, msg: MessageView) -> bool {
        self.first().matches(msg) && self.second().matches(msg)
    }

    fn filter(&self, msg: &OwnedMessage) -> (matched: bool) {
        self.first_filter.filter(msg) && self.second_filter.filter(msg)
    }

    fn dynamize(self) -> (erased: DynFilter) {
        let first = self.first_filter.dynamize();
        let second = self.second_filter.dynamize();
        let erased = DynFilter::And(Box::new(first), Box::new(second));
        assert forall|msg: MessageView| #[trigger] erased.accepts(msg) == self.matches(msg) by {
            assert(first.accepts(msg) == self.first().matches(msg));
            assert(second.accepts(msg) == self.second().matches(msg));
        }
        erased
    }
}

/// Matches where either filter matches. The second is asked only where the
/// first has not matched.
pub struct Or<First, Second> {
    first_filter: First,
    second_filter: Second,
}

impl<F, S> Or<F, S> {
    pub closed spec fn first(&self) -> F {
        self.first_filter
    }

    pub closed spec fn second(&self) -> S {
        self.second_filter
    }

    pub fn new(f: F, s: S) -> (either: Self)
        ensures
            either.first() == f,
            either.second() == s,
    {
        Self { first_filter: f, second_filter: s }
    }
}

impl<First: Filter + 'static, Second: Filter + 'static> Filter for Or<First, Second> {
    open spec fn matches(&self, msg: MessageView) -> bool {
        self.first().matches(msg) || self.second().matches(msg)
    }

    fn filter(&self, msg: &OwnedMessage) -> (matched: bool) {
        self.first_filter.filter(msg) || self.second_filter.filter(msg)
    }

    fn dynamize(self) -> (erased: DynFilter) {
        let first = self.first_filter.dynamize();
        let second = self.second_filter.dynamize();
        let erased = DynFilter::Or(Box::new(first), Box::new(second));
        assert forall|msg: MessageView| #[trigger] erased.accepts(msg) == self.matches(msg) by {
            assert(first.accepts(msg) == self.first().matches(msg));
            assert(second.accepts(msg) == self.second().matches(msg));
        }
        erased
    }
}

/// Constructors for the filters of this library.
pub struct Filters;

impl Filters {
    /// The filter that accepts every message.
    pub fn empty() -> (rule: ())
        ensures
            forall|msg: MessageView| rule.matches(msg),
    {
        ()
    }

    /// The filter that accepts messages with exactly this subject.
    pub fn subject(s: String) -> (rule: Subject)
        ensures
            rule.text() == s@,
    {
        Subject::new(s)
    }

    /// The filter that accepts messages whose sender address contains `s`.
    pub fn sender(s: String) -> (rule: Sender)
        ensures
            rule.text() == s@,
    {
        Sender::new(s)
    }

    /// The filter that accepts messages dated strictly after `s`.
    pub fn sent_since(s: Timestamp) -> (rule: DateFilter)
        ensures
            rule.mode() == DateFilterMode::Since,
            rule.threshold() == s,
    {
        DateFilter::since(s)
    }
}

/// Chaining of filters: `a.and(b)`, `a.or_subject(..)` and so on. Each method
/// builds the combinator it is named after and nothing else.
pub trait FilterExt: Sized {
    fn and<S: Filter>(self, second: S) -> (both: And<Self, S>)
        ensures
            both.first() == self,
            both.second() == second,
    ;

    fn or<S: Filter>(self, second: S) -> (either: Or<Self, S>)
        ensures
            either.first() == self,
            either.second() == second,
    ;

    fn and_subject(self, s: String) -> (both: And<Self, Subject>)
        ensures
            both.first() == self,
            both.second().text() == s@,
    ;

    fn or_subject(self, s: String) -> (either: Or<Self, Subject>)
        ensures
            either.first() == self,
            either.second().text() == s@,
    ;

    fn and_sender(self, s: String) -> (both: And<Self, Sender>)
        ensures
            both.first() == self,
            both.second().text() == s@,
    ;

    fn or_sender(self, s: String) -> (either: Or<Self, Sender>)
        ensures
            either.first() == self,
            either.second().text() == s@,
    ;

    fn and_sent_since(self, s: Timestamp) -> (both: And<Self, DateFilter>)
        ensures
            both.first() == self,
            both.second().mode() == DateFilterMode::Since,
            both.second().threshold() == s,
    ;

    fn or_sent_since(self, s: Timestamp) -> (either: Or<Self, DateFilter>)
        ensures
            either.first() == self,
            either.second().mode() == DateFilterMode::Since,
            either.second().threshold() == s,
    ;
}

impl<T: Filter + Sized + 'static> FilterExt for T {
    fn and<S: Filter>(self, second: S) -> (both: And<Self, S>) {
        And::new(self, second)
    }

    fn or<S: Filter>(self, second: S) -> (either: Or<Self, S>) {
        Or::new(self, second)
    }

    fn and_subject(self, s: String) -> (both: And<Self, Subject>) {
        self.and(Filters::subject(s))
    }

    fn or_subject(self, s: String) -> (either: Or<Self, Subject>) {
        self.or(Filters::subject(s))
    }

    fn and_sender(self, s: String) -> (both: And<Self, Sender>) {
        self.and(Filters::sender(s))
    }

    fn or_sender(self, s: String) -> (either: Or<Self, Sender>) {
        self.or(Filters::sender(s))
    }

    fn and_sent_since(self, s: Timestamp) -> (both: And<Self, DateFilter>) {
        self.and(Filters::sent_since(s))
    }

    fn or_sent_since(self, s: Timestamp) -> (either: Or<Self, DateFilter>) {
        self.or(Filters::sent_since(s))
    }
}

/// A filter has no hidden state: what it answers is fixed by the filter
/// and the value of the message, so two answers to the same question agree.
pub proof fn lemma_filter_is_pure<F: Filter>(
    rule: F,
    msg: OwnedMessage,
    again: OwnedMessage,
    first: bool,
    second: bool,
)
    requires
        again@ == msg@,
        first == rule.matches(msg@),
        second == rule.matches(again@),
    ensures
        first == second,
{
}

/// `And` of two filters matches exactly where both match.
pub proof fn lemma_and_is_conjunction<F1: Filter + 'static, F2: Filter + 'static>(
    f1: F1,
    f2: F2,
    both: And<F1, F2>,
    msg: MessageView,
)
    requires
        both.first() == f1,
        both.second() == f2,
    ensures
        both.matches(msg) == (f1.matches(msg) && f2.matches(msg)),
{
}

/// `Or` of two filters matches exactly where at least one matches.
pub proof fn lemma_or_is_disjunction<F1: Filter + 'static, F2: Filter + 'static>(
    f1: F1,
    f2: F2,
    either: Or<F1, F2>,
    msg: MessageView,
)
    requires
        either.first() == f1,
        either.second() == f2,
    ensures
        either.matches(msg) == (f1.matches(msg) || f2.matches(msg)),
{
}

/// The empty filter matches every message.
pub proof fn lemma_empty_matches_all(msg: MessageView)
    ensures
        ().matches(msg),
        DynFilter::Everything.accepts(msg),
{
}

/// A message dated exactly at the threshold is neither after it nor before
/// it: neither mode matches.
pub proof fn lemma_threshold_is_excluded(threshold: Timestamp, msg: MessageView)
    requires
        threshold.nanos == 0,
        msg.date == Some(threshold.secs),
    ensures
        !date_matches(DateFilterMode::Since, threshold, msg),
        !date_matches(DateFilterMode::Earlier, threshold, msg),
{
}

} // verus!
