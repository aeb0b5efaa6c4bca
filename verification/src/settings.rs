//! Who may print: roles, users, and the lookup from a numeric user id.

use vstd::prelude::*;
use vstd::utf8::encode_utf8;

verus! {

/// What a group of users is allowed.
#[derive(Debug, Clone, PartialEq, Eq)]
pub struct Role {
    pub name: String,
    pub max_print_len: usize,
    pub minutes_between_prints: usize,
}

/// One user: an id, written in decimal, and the name of a role.
#[derive(Debug, Clone, PartialEq, Eq)]
pub struct User {
    pub id: String,
    pub role: String,
}

/// The roles and the users.
#[derive(Debug, Clone)]
pub struct Settings {
    pub roles: Vec<Role>,
    pub users: Vec<User>,
}

/// The abstract value of a role.
pub struct RoleView {
    pub name: Seq<char>,
    pub max_print_len: nat,
    pub minutes_between_prints: nat,
}

/// The abstract value of a user.
pub struct UserView {
    pub id: Seq<char>,
    pub role: Seq<char>,
}

/// The abstract value of the settings.
pub struct SettingsView {
    pub roles: Seq<RoleView>,
    pub users: Seq<UserView>,
}

impl View for Role {
    type V = RoleView;

    open spec fn view(&self) -> RoleView {
        RoleView {
            name: self.name@,
            max_print_len: self.max_print_len as nat,
            minutes_between_prints: self.minutes_between_prints as nat,
        }
    }
}

impl View for User {
    type V = UserView;

    open spec fn view(&self) -> UserView {
        UserView { id: self.id@, role: self.role@ }
    }
}

impl View for Settings {
    type V = SettingsView;

    open spec fn view(&self) -> SettingsView {
        SettingsView {
            roles: Seq::new(self.roles@.len(), |i: int| self.roles@[i]@),
            users: Seq::new(self.users@.len(), |i: int| self.users@[i]@),
        }
    }
}

/// `0`, the first decimal digit.
pub const DIGIT_0: u8 = 0x30;

/// `9`, the last decimal digit.
pub const DIGIT_9: u8 = 0x39;

/// `+`, the sign that a non-negative id may carry.
pub const PLUS: u8 = 0x2b;

/// `-`, the sign of a negative id.
pub const MINUS: u8 = 0x2d;

/// Whether every byte is a decimal digit.
pub open spec fn all_digits(bytes: Seq<u8>) -> bool {
    forall|i: int| 0 <= i < bytes.len() ==> DIGIT_0 <= #[trigger] bytes[i] <= DIGIT_9
}

/// The number that a run of decimal digits spells.
pub open spec fn decimal_value(digits: Seq<u8>) -> int
    decreases digits.len(),
{
    if digits.len() == 0 {
        0
    } else {
        decimal_value(digits.drop_last()) * 10 + (digits.last() - DIGIT_0)
    }
}

/// The digits of an id: what follows the sign, if there is one.
pub open spec fn digits_of(bytes: Seq<u8>) -> Seq<u8> {
    if bytes.len() > 0 && (bytes[0] == PLUS || bytes[0] == MINUS) {
        bytes.drop_first()
    } else {
        bytes
    }
}

/// The number that the bytes of an id spell, sign included.
pub open spec fn signed_value(bytes: Seq<u8>) -> int {
    if bytes.len() > 0 && bytes[0] == MINUS {
        -decimal_value(digits_of(bytes))
    } else {
        decimal_value(digits_of(bytes))
    }
}

/// The id that `bytes` spell: an optional sign, then one decimal digit or
/// more and nothing else, for a number that a 64-bit signed integer holds.
pub open spec fn parse_id(bytes: Seq<u8>) -> Option<i64> {
    if digits_of(bytes).len() > 0 && all_digits(digits_of(bytes)) && i64::MIN <= signed_value(bytes)
        <= i64::MAX {
        Some(signed_value(bytes) as i64)
    } else {
        None
    }
}

/// Once a run of digits spells a number, more digits behind it spell no
/// smaller one.
proof fn lemma_decimal_value_grows(digits: Seq<u8>, count: int)
    requires
        all_digits(digits),
        0 <= count <= digits.len(),
    ensures
        0 <= decimal_value(digits.take(count)) <= decimal_value(digits),
    decreases digits.len() - count,
{
    if count == 0 {
        assert(digits.take(0).len() == 0);
        lemma_decimal_value_not_negative(digits);
    } else if count < digits.len() {
        lemma_decimal_value_grows(digits, count + 1);
        assert(digits.take(count + 1).drop_last() =~= digits.take(count));
        assert(digits.take(count + 1).last() == digits[count]);
        lemma_decimal_value_not_negative(digits.take(count));
    } else {
        assert(digits.take(count) =~= digits);
        lemma_decimal_value_not_negative(digits);
    }
}

/// A run of digits spells no negative number.
proof fn lemma_decimal_value_not_negative(digits: Seq<u8>)
    requires
        all_digits(digits),
    ensures
        0 <= decimal_value(digits),
    decreases digits.len(),
{
    if digits.len() > 0 {
        lemma_decimal_value_not_negative(digits.drop_last());
    }
}

/// The largest magnitude of an id: that of the least 64-bit signed integer.
const MAX_MAGNITUDE: u64 = 0x8000_0000_0000_0000;

/// Reads a user id as the decimal number it spells.
pub fn parse_user_id(id: &str) -> (parsed: Option<i64>)
    ensures
        parsed == parse_id(encode_utf8(id@)),
{
    let bytes = id.as_bytes();
    let length = bytes.len();
    if length == 0 {
        return None;
    }
    let negative = bytes[0] == MINUS;
    let start: usize = if bytes[0] == PLUS || bytes[0] == MINUS {
        1
    } else {
        0
    };
    if start == length {
        return None;
    }
    let ghost digits = digits_of(bytes@);
    assert(digits =~= bytes@.skip(start as int));
    let mut magnitude: u64 = 0;
    let mut index: usize = start;
    while index < length
        invariant
            bytes@ == encode_utf8(id@),
            length == bytes@.len(),
            start <= index <= length,
            digits == bytes@.skip(start as int),
            digits == digits_of(bytes@),
            negative == (bytes@[0] == MINUS),
            all_digits(digits.take(index - start)),
            magnitude == decimal_value(digits.take(index - start)),
            magnitude <= MAX_MAGNITUDE,
        decreases length - index,
    {
        let byte = bytes[index];
        if byte < DIGIT_0 || byte > DIGIT_9 {
            assert(digits[index - start] == byte);
            assert(!all_digits(digits));
            return None;
        }
        let digit = (byte - DIGIT_0) as u64;
        proof {
            let longer = digits.take(index - start + 1);
            assert(longer.drop_last() =~= digits.take(index - start));
            assert(longer.last() == byte);
            assert(all_digits(longer)) by {
                assert forall|i: int| 0 <= i < longer.len() implies DIGIT_0 <= #[trigger] longer[i]
                    <= DIGIT_9 by {
                    if i < index - start {
                        assert(longer[i] == digits.take(index - start)[i]);
                    }
                }
            }
        }
        if magnitude > (MAX_MAGNITUDE - digit) / 10 {
            proof {
                let longer = digits.take(index - start + 1);
                assert(decimal_value(longer) == magnitude * 10 + digit);
                assert(decimal_value(longer) > MAX_MAGNITUDE);
                if all_digits(digits) {
                    lemma_decimal_value_grows(digits, index - start + 1);
                    assert(decimal_value(digits) > MAX_MAGNITUDE);
                }
            }
            return None;
        }
        magnitude = magnitude * 10 + digit;
        index += 1;
    }
    assert(digits.take(index - start) =~= digits);
    if negative {
        if magnitude == MAX_MAGNITUDE {
            Some(i64::MIN)
        } else {
            Some(-(magnitude as i64))
        }
    } else if magnitude == MAX_MAGNITUDE {
        None
    } else {
        Some(magnitude as i64)
    }
}

/// How the search for a user ends.
#[derive(Clone, Copy, Debug, PartialEq, Eq, Structural)]
pub enum UserLookup {
    /// The user at this index is the first one with the id.
    Found(usize),
    /// Every user has an id that spells a number, and none has the id.
    Missing,
    /// The id of the user at this index spells no number, and no user in
    /// front of it has the id.
    Unreadable(usize),
}

impl User {
    /// The number that the id of the user spells, if it spells one.
    pub open spec fn numeric_id(&self) -> Option<i64> {
        parse_id(encode_utf8(self.id@))
    }
}

impl Settings {
    /// How the search for the user with `id` ends when it starts at `from`
    /// and takes the users in order.
    pub open spec fn user_scan(&self, id: i64, from: int) -> UserLookup
        decreases self.users@.len() - from,
    {
        if from < 0 || from >= self.users@.len() {
            UserLookup::Missing
        } else {
            match self.users@[from].numeric_id() {
                None => UserLookup::Unreadable(from as usize),
                Some(found) => if found == id {
                    UserLookup::Found(from as usize)
                } else {
                    self.user_scan(id, from + 1)
                },
            }
        }
    }

    /// The index of the first role from `from` on that is called `name`.
    pub open spec fn role_scan(&self, name: Seq<char>, from: int) -> Option<int>
        decreases self.roles@.len() - from,
    {
        if from < 0 || from >= self.roles@.len() {
            None
        } else if self.roles@[from].name@ == name {
            Some(from)
        } else {
            self.role_scan(name, from + 1)
        }
    }

    /// The user with `id`: the first one, should several have it.
    pub open spec fn user_of(&self, id: i64) -> Option<User> {
        match self.user_scan(id, 0) {
            UserLookup::Found(index) => Some(self.users@[index as int]),
            _ => None,
        }
    }

    /// The role of the user with `id`: the first role that has the name
    /// which the user gives as its role.
    pub open spec fn role_of(&self, id: i64) -> Option<Role> {
        match self.user_of(id) {
            Some(user) => match self.role_scan(user.role@, 0) {
                Some(index) => Some(self.roles@[index]),
                None => None,
            },
            None => None,
        }
    }

    /// What the settings hold when none have been written yet.
    pub open spec fn default_view() -> SettingsView {
        SettingsView {
            roles: seq![
                RoleView {
                    name: "admin"@,
                    max_print_len: usize::MAX as nat,
                    minutes_between_prints: 0,
                },
                RoleView { name: "user"@, max_print_len: 200, minutes_between_prints: 3600 },
            ],
            users: seq![UserView { id: "228223333"@, role: "admin"@ }],
        }
    }

    /// The settings to start from: an unlimited role for the administrator,
    /// a limited one for everybody else, and one administrator.
    pub fn create_default() -> (settings: Settings)
        ensures
            settings@ == Settings::default_view(),
    {
        let mut roles: Vec<Role> = Vec::new();
        roles.push(
            Role { name: "admin".to_owned(), max_print_len: usize::MAX, minutes_between_prints: 0 },
        );
        roles.push(
            Role { name: "user".to_owned(), max_print_len: 200, minutes_between_prints: 3600 },
        );
        let mut users: Vec<User> = Vec::new();
        users.push(User { id: "228223333".to_owned(), role: "admin".to_owned() });
        let settings = Settings { roles, users };
        assert(settings@.roles =~= Settings::default_view().roles);
        assert(settings@.users =~= Settings::default_view().users);
        settings
    }

    /// Looks for the first user with `id`, reading the ids in order. The
    /// search ends at the first id that spells no number.
    pub fn find_user(&self, id: i64) -> (found: UserLookup)
        ensures
            found == self.user_scan(id, 0),
    {
        let mut index: usize = 0;
        while index < self.users.len()
            invariant
                index <= self.users@.len(),
                self.user_scan(id, 0) == self.user_scan(id, index as int),
            decreases self.users@.len() - index,
        {
            match parse_user_id(self.users[index].id.as_str()) {
                None => {
                    return UserLookup::Unreadable(index);
                },
                Some(found) => {
                    if found == id {
                        return UserLookup::Found(index);
                    }
                },
            }
            index += 1;
        }
        UserLookup::Missing
    }

    /// The user with `id`, if there is one.
    ///
    /// The ids are read in order up to the user that is looked for. One of
    /// them that spells no number is a fault in the settings, which the
    /// caller rules out; [`Settings::find_user`] tells.
    pub fn get_user(&self, id: i64) -> (user: Option<&User>)
        requires
            !(self.user_scan(id, 0) is Unreadable),
        ensures
            user == match self.user_of(id) {
                Some(found) => Some(&found),
                None => None,
            },
    {
        proof {
            user_scan_finds_the_first(*self, id);
        }
        match self.find_user(id) {
            UserLookup::Found(index) => Some(&self.users[index]),
            _ => None,
        }
    }

    /// The first role that is called `name`.
    fn find_role(&self, name: &String) -> (role: Option<&Role>)
        ensures
            role == match self.role_scan(name@, 0) {
                Some(index) => Some(&self.roles@[index]),
                None => None,
            },
    {
        let mut index: usize = 0;
        while index < self.roles.len()
            invariant
                index <= self.roles@.len(),
                self.role_scan(name@, 0) == self.role_scan(name@, index as int),
            decreases self.roles@.len() - index,
        {
            if self.roles[index].name == *name {
                return Some(&self.roles[index]);
            }
            index += 1;
        }
        None
    }

    /// The role of the user with `id`, if there is such a user and the role
    /// that it names exists. The caller rules out a faulty id as for
    /// [`Settings::get_user`].
    pub fn get_role(&self, id: i64) -> (role: Option<&Role>)
        requires
            !(self.user_scan(id, 0) is Unreadable),
        ensures
            role == match self.role_of(id) {
                Some(found) => Some(&found),
                None => None,
            },
    {
        match self.get_user(id) {
            Some(user) => self.find_role(&user.role),
            None => None,
        }
    }
}

/// What the end of a search says about the users.
///
/// `Found(i)`: user `i` has the id, and every user in front of it has an id
/// that spells another number. `Unreadable(i)`: the id of user `i` spells no
/// number, and every user in front of it has an id that spells a number
/// other than the one looked for. `Missing`: every user has an id that
/// spells a number other than the one looked for.
pub proof fn user_scan_finds_the_first(settings: Settings, id: i64)
    ensures
        match settings.user_scan(id, 0) {
            UserLookup::Found(index) => {
                &&& index < settings.users@.len()
                &&& settings.users@[index as int].numeric_id() == Some(id)
                &&& forall|i: int|
                    0 <= i < index ==> (#[trigger] settings.users@[i]).numeric_id() is Some
                        && settings.users@[i].numeric_id() != Some(id)
            },
            UserLookup::Unreadable(index) => {
                &&& index < settings.users@.len()
                &&& settings.users@[index as int].numeric_id() is None
                &&& forall|i: int|
                    0 <= i < index ==> (#[trigger] settings.users@[i]).numeric_id() is Some
                        && settings.users@[i].numeric_id() != Some(id)
            },
            UserLookup::Missing => forall|i: int|
                0 <= i < settings.users@.len() ==> (#[trigger] settings.users@[i]).numeric_id()
                    is Some && settings.users@[i].numeric_id() != Some(id),
        },
{
    lemma_user_scan(settings, id, 0);
}

/// The same, for a search that starts at `from`.
proof fn lemma_user_scan(settings: Settings, id: i64, from: int)
    requires
        0 <= from <= settings.users@.len(),
    ensures
        match settings.user_scan(id, from) {
            UserLookup::Found(index) => {
                &&& from <= index < settings.users@.len()
                &&& settings.users@[index as int].numeric_id() == Some(id)
                &&& forall|i: int|
                    from <= i < index ==> (#[trigger] settings.users@[i]).numeric_id() is Some
                        && settings.users@[i].numeric_id() != Some(id)
            },
            UserLookup::Unreadable(index) => {
                &&& from <= index < settings.users@.len()
                &&& settings.users@[index as int].numeric_id() is None
                &&& forall|i: int|
                    from <= i < index ==> (#[trigger] settings.users@[i]).numeric_id() is Some
                        && settings.users@[i].numeric_id() != Some(id)
            },
            UserLookup::Missing => forall|i: int|
                from <= i < settings.users@.len() ==> (#[trigger] settings.users@[i]).numeric_id()
                    is Some && settings.users@[i].numeric_id() != Some(id),
        },
    decreases settings.users@.len() - from,
{
    assert(settings.users.len() == settings.users@.len());
    if from < settings.users@.len() {
        lemma_user_scan(settings, id, from + 1);
    }
}

/// The role that a search by name finds is the first one with the name.
pub proof fn role_scan_finds_the_first(settings: Settings, name: Seq<char>)
    ensures
        match settings.role_scan(name, 0) {
            Some(index) => {
                &&& 0 <= index < settings.roles@.len()
                &&& settings.roles@[index].name@ == name
                &&& forall|i: int| 0 <= i < index ==> (#[trigger] settings.roles@[i]).name@ != name
            },
            None => forall|i: int|
                0 <= i < settings.roles@.len() ==> (#[trigger] settings.roles@[i]).name@ != name,
        },
{
    lemma_role_scan(settings, name, 0);
}

/// The same, for a search that starts at `from`.
proof fn lemma_role_scan(settings: Settings, name: Seq<char>, from: int)
    requires
        0 <= from <= settings.roles@.len(),
    ensures
        match settings.role_scan(name, from) {
            Some(index) => {
                &&& from <= index < settings.roles@.len()
                &&& settings.roles@[index].name@ == name
                &&& forall|i: int|
                    from <= i < index ==> (#[trigger] settings.roles@[i]).name@ != name
            },
            None => forall|i: int|
                from <= i < settings.roles@.len() ==> (#[trigger] settings.roles@[i]).name@
                    != name,
        },
    decreases settings.roles@.len() - from,
{
    if from < settings.roles@.len() {
        lemma_role_scan(settings, name, from + 1);
    }
}

} // verus!
