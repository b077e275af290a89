//! Opaque string identifiers. Each is its own type so that, say, a `RoomId` can
//! never be passed where a `UserId` is expected. The interface treats their
//! contents as a black box; the specifications see them as character sequences.

use vstd::prelude::*;

verus! {

/// Identifier of a user.
#[derive(Debug, Hash)]
pub struct UserId(pub String);

impl View for UserId {
    type V = Seq<char>;

    open spec fn view(&self) -> Seq<char> {
        self.0@
    }
}

impl UserId {
    /// Builds the identifier from its text.
    pub fn new(s: &str) -> (id: Self)
        ensures
            id@ == s@,
    {
        UserId(s.to_owned())
    }

    /// The identifier's text.
    pub fn to_string(&self) -> (s: String)
        ensures
            s@ == self@,
    {
        self.0.clone()
    }
}

impl Clone for UserId {
    fn clone(&self) -> (res: Self)
        ensures
            res == *self,
    {
        UserId(self.0.clone())
    }
}

impl PartialEq for UserId {
    fn eq(&self, other: &Self) -> (res: bool) {
        self.0 == other.0
    }
}

impl vstd::std_specs::cmp::PartialEqSpecImpl for UserId {
    open spec fn obeys_eq_spec() -> bool {
        true
    }

    open spec fn eq_spec(&self, other: &Self) -> bool {
        self@ == other@
    }
}

impl Eq for UserId {}

impl From<String> for UserId {
    fn from(s: String) -> (res: Self) {
        UserId(s)
    }
}

impl vstd::std_specs::convert::FromSpecImpl<String> for UserId {
    open spec fn obeys_from_spec() -> bool {
        true
    }

    open spec fn from_spec(v: String) -> Self {
        UserId(v)
    }
}

impl<'a> From<&'a str> for UserId {
    fn from(s: &'a str) -> (res: Self) {
        UserId::new(s)
    }
}

/// A `String` built from a slice is known by its view only, so this
/// conversion is specified through [`UserId::new`], which it calls.
impl<'a> vstd::std_specs::convert::FromSpecImpl<&'a str> for UserId {
    open spec fn obeys_from_spec() -> bool {
        false
    }

    open spec fn from_spec(v: &'a str) -> Self {
        choose|id: UserId| id@ == v@
    }
}

/// Identifier of a space.
#[derive(Debug, Hash)]
pub struct SpaceId(pub String);

impl View for SpaceId {
    type V = Seq<char>;

    open spec fn view(&self) -> Seq<char> {
        self.0@
    }
}

impl SpaceId {
    /// Builds the identifier from its text.
    pub fn new(s: &str) -> (id: Self)
        ensures
            id@ == s@,
    {
        SpaceId(s.to_owned())
    }

    /// The identifier's text.
    pub fn to_string(&self) -> (s: String)
        ensures
            s@ == self@,
    {
        self.0.clone()
    }
}

impl Clone for SpaceId {
    fn clone(&self) -> (res: Self)
        ensures
            res == *self,
    {
        SpaceId(self.0.clone())
    }
}

impl PartialEq for SpaceId {
    fn eq(&self, other: &Self) -> (res: bool) {
        self.0 == other.0
    }
}

impl vstd::std_specs::cmp::PartialEqSpecImpl for SpaceId {
    open spec fn obeys_eq_spec() -> bool {
        true
    }

    open spec fn eq_spec(&self, other: &Self) -> bool {
        self@ == other@
    }
}

impl Eq for SpaceId {}

impl From<String> for SpaceId {
    fn from(s: String) -> (res: Self) {
        SpaceId(s)
    }
}

impl vstd::std_specs::convert::FromSpecImpl<String> for SpaceId {
    open spec fn obeys_from_spec() -> bool {
        true
    }

    open spec fn from_spec(v: String) -> Self {
        SpaceId(v)
    }
}

impl<'a> From<&'a str> for SpaceId {
    fn from(s: &'a str) -> (res: Self) {
        SpaceId::new(s)
    }
}

/// A `String` built from a slice is known by its view only, so this
/// conversion is specified through [`SpaceId::new`], which it calls.
impl<'a> vstd::std_specs::convert::FromSpecImpl<&'a str> for SpaceId {
    open spec fn obeys_from_spec() -> bool {
        false
    }

    open spec fn from_spec(v: &'a str) -> Self {
        choose|id: SpaceId| id@ == v@
    }
}

/// Identifier of a room.
#[derive(Debug, Hash)]
pub struct RoomId(pub String);

impl View for RoomId {
    type V = Seq<char>;

    open spec fn view(&self) -> Seq<char> {
        self.0@
    }
}

impl RoomId {
    /// Builds the identifier from its text.
    pub fn new(s: &str) -> (id: Self)
        ensures
            id@ == s@,
    {
        RoomId(s.to_owned())
    }

    /// The identifier's text.
    pub fn to_string(&self) -> (s: String)
        ensures
            s@ == self@,
    {
        self.0.clone()
    }
}

impl Clone for RoomId {
    fn clone(&self) -> (res: Self)
        ensures
            res == *self,
    {
        RoomId(self.0.clone())
    }
}

impl PartialEq for RoomId {
    fn eq(&self, other: &Self) -> (res: bool) {
        self.0 == other.0
    }
}

impl vstd::std_specs::cmp::PartialEqSpecImpl for RoomId {
    open spec fn obeys_eq_spec() -> bool {
        true
    }

    open spec fn eq_spec(&self, other: &Self) -> bool {
        self@ == other@
    }
}

impl Eq for RoomId {}

impl From<String> for RoomId {
    fn from(s: String) -> (res: Self) {
        RoomId(s)
    }
}

impl vstd::std_specs::convert::FromSpecImpl<String> for RoomId {
    open spec fn obeys_from_spec() -> bool {
        true
    }

    open spec fn from_spec(v: String) -> Self {
        RoomId(v)
    }
}

impl<'a> From<&'a str> for RoomId {
    fn from(s: &'a str) -> (res: Self) {
        RoomId::new(s)
    }
}

/// A `String` built from a slice is known by its view only, so this
/// conversion is specified through [`RoomId::new`], which it calls.
impl<'a> vstd::std_specs::convert::FromSpecImpl<&'a str> for RoomId {
    open spec fn obeys_from_spec() -> bool {
        false
    }

    open spec fn from_spec(v: &'a str) -> Self {
        choose|id: RoomId| id@ == v@
    }
}

/// Identifier of a message.
#[derive(Debug, Hash)]
pub struct MessageId(pub String);

impl View for MessageId {
    type V = Seq<char>;

    open spec fn view(&self) -> Seq<char> {
        self.0@
    }
}

impl MessageId {
    /// Builds the identifier from its text.
    pub fn new(s: &str) -> (id: Self)
        ensures
            id@ == s@,
    {
        MessageId(s.to_owned())
    }

    /// The identifier's text.
    pub fn to_string(&self) -> (s: String)
        ensures
            s@ == self@,
    {
        self.0.clone()
    }
}

impl Clone for MessageId {
    fn clone(&self) -> (res: Self)
        ensures
            res == *self,
    {
        MessageId(self.0.clone())
    }
}

impl PartialEq for MessageId {
    fn eq(&self, other: &Self) -> (res: bool) {
        self.0 == other.0
    }
}

impl vstd::std_specs::cmp::PartialEqSpecImpl for MessageId {
    open spec fn obeys_eq_spec() -> bool {
        true
    }

    open spec fn eq_spec(&self, other: &Self) -> bool {
        self@ == other@
    }
}

impl Eq for MessageId {}

impl From<String> for MessageId {
    fn from(s: String) -> (res: Self) {
        MessageId(s)
    }
}

impl vstd::std_specs::convert::FromSpecImpl<String> for MessageId {
    open spec fn obeys_from_spec() -> bool {
        true
    }

    open spec fn from_spec(v: String) -> Self {
        MessageId(v)
    }
}

impl<'a> From<&'a str> for MessageId {
    fn from(s: &'a str) -> (res: Self) {
        MessageId::new(s)
    }
}

/// A `String` built from a slice is known by its view only, so this
/// conversion is specified through [`MessageId::new`], which it calls.
impl<'a> vstd::std_specs::convert::FromSpecImpl<&'a str> for MessageId {
    open spec fn obeys_from_spec() -> bool {
        false
    }

    open spec fn from_spec(v: &'a str) -> Self {
        choose|id: MessageId| id@ == v@
    }
}

/// Identifier of a device.
#[derive(Debug, Hash)]
pub struct DeviceId(pub String);

impl View for DeviceId {
    type V = Seq<char>;

    open spec fn view(&self) -> Seq<char> {
        self.0@
    }
}

impl DeviceId {
    /// Builds the identifier from its text.
    pub fn new(s: &str) -> (id: Self)
        ensures
            id@ == s@,
    {
        DeviceId(s.to_owned())
    }

    /// The identifier's text.
    pub fn to_string(&self) -> (s: String)
        ensures
            s@ == self@,
    {
        self.0.clone()
    }
}

impl Clone for DeviceId {
    fn clone(&self) -> (res: Self)
        ensures
            res == *self,
    {
        DeviceId(self.0.clone())
    }
}

impl PartialEq for DeviceId {
    fn eq(&self, other: &Self) -> (res: bool) {
        self.0 == other.0
    }
}

impl vstd::std_specs::cmp::PartialEqSpecImpl for DeviceId {
    open spec fn obeys_eq_spec() -> bool {
        true
    }

    open spec fn eq_spec(&self, other: &Self) -> bool {
        self@ == other@
    }
}

impl Eq for DeviceId {}

impl From<String> for DeviceId {
    fn from(s: String) -> (res: Self) {
        DeviceId(s)
    }
}

impl vstd::std_specs::convert::FromSpecImpl<String> for DeviceId {
    open spec fn obeys_from_spec() -> bool {
        true
    }

    open spec fn from_spec(v: String) -> Self {
        DeviceId(v)
    }
}

impl<'a> From<&'a str> for DeviceId {
    fn from(s: &'a str) -> (res: Self) {
        DeviceId::new(s)
    }
}

/// A `String` built from a slice is known by its view only, so this
/// conversion is specified through [`DeviceId::new`], which it calls.
impl<'a> vstd::std_specs::convert::FromSpecImpl<&'a str> for DeviceId {
    open spec fn obeys_from_spec() -> bool {
        false
    }

    open spec fn from_spec(v: &'a str) -> Self {
        choose|id: DeviceId| id@ == v@
    }
}

} // verus!
