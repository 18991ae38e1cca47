//! Where the images of users and channels are found on the content network.

use crate::data::text::{decimal, digit_of, is_digit, number_value, unsigned_part};
use vstd::prelude::*;
use vstd::string::StringExecFns;

verus! {

/// The character of a digit below ten.
pub open spec fn digit_char(d: nat) -> char {
    if d == 0 {
        '0'
    } else if d == 1 {
        '1'
    } else if d == 2 {
        '2'
    } else if d == 3 {
        '3'
    } else if d == 4 {
        '4'
    } else if d == 5 {
        '5'
    } else if d == 6 {
        '6'
    } else if d == 7 {
        '7'
    } else if d == 8 {
        '8'
    } else {
        '9'
    }
}

/// A number written in base ten, without sign and without leading zeros.
pub open spec fn digits_of(n: nat) -> Seq<char>
    decreases n,
{
    if n < 10 {
        seq![digit_char(n)]
    } else {
        digits_of(n / 10).push(digit_char(n % 10))
    }
}

/// The address of the content network.
pub open spec fn cdn_address() -> Seq<char> {
    "https://cdn.discordapp.com"@
}

/// Where the avatar of a user is found in the given size.
pub open spec fn avatar_address(user_id: Seq<char>, avatar: Seq<char>, size: u16) -> Seq<char> {
    cdn_address() + "/avatars/"@ + user_id + "/"@ + avatar + ".png?size="@ + digits_of(size as nat)
}

/// Where the avatar is found that a user without one of their own gets: one of
/// five, picked by the discriminator.
pub open spec fn default_avatar_address(discriminator: u16) -> Seq<char> {
    cdn_address() + "/embed/avatars/"@ + digits_of((discriminator % 5) as nat) + ".png?size=16"@
}

/// Where the icon of a channel is found in the given size.
pub open spec fn channel_icon_address(channel_id: Seq<char>, icon: Seq<char>, size: u16) -> Seq<
    char,
> {
    cdn_address() + "/channel-icons/"@ + channel_id + "/"@ + icon + ".png?size="@ + digits_of(
        size as nat,
    )
}

fn digit_text(d: u64) -> (text: &'static str)
    requires
        d < 10,
    ensures
        text@ == seq![digit_char(d as nat)],
{
    proof {
        reveal_strlit("0");
        reveal_strlit("1");
        reveal_strlit("2");
        reveal_strlit("3");
        reveal_strlit("4");
        reveal_strlit("5");
        reveal_strlit("6");
        reveal_strlit("7");
        reveal_strlit("8");
        reveal_strlit("9");
    }
    let text = if d == 0 {
        "0"
    } else if d == 1 {
        "1"
    } else if d == 2 {
        "2"
    } else if d == 3 {
        "3"
    } else if d == 4 {
        "4"
    } else if d == 5 {
        "5"
    } else if d == 6 {
        "6"
    } else if d == 7 {
        "7"
    } else if d == 8 {
        "8"
    } else {
        "9"
    };
    assert(text@ =~= seq![digit_char(d as nat)]);
    text
}

/// Writes a number in base ten.
pub fn decimal_text(n: u64) -> (text: String)
    ensures
        text@ == digits_of(n as nat),
    decreases n,
{
    if n < 10 {
        String::from_str(digit_text(n))
    } else {
        let text = decimal_text(n / 10).concat(digit_text(n % 10));
        assert(text@ =~= digits_of(n as nat));
        text
    }
}

/// What `decimal_text` writes, `parse_decimal` reads back.
pub proof fn law_digits_read_back(n: nat, max: nat)
    requires
        n <= max,
    ensures
        decimal(digits_of(n), max) == Some(n),
{
    lemma_digits(n);
    assert(unsigned_part(digits_of(n)) == digits_of(n));
}

proof fn lemma_digits(n: nat)
    ensures
        digits_of(n).len() > 0,
        forall|i: int| 0 <= i < digits_of(n).len() ==> is_digit(#[trigger] digits_of(n)[i]),
        number_value(digits_of(n)) == n,
        digits_of(n)[0] != '+',
    decreases n,
{
    if n < 10 {
        let s = digits_of(n);
        assert(s.drop_last() == Seq::<char>::empty());
        assert(number_value(s.drop_last()) == 0);
        assert(digit_of(digit_char(n)) == n);
    } else {
        lemma_digits(n / 10);
        let s = digits_of(n);
        assert(s.drop_last() == digits_of(n / 10));
        assert(digit_of(digit_char(n % 10)) == n % 10);
    }
}

/// The address of a user's avatar.
pub fn avatar_url(user_id: &str, avatar: &str, size: u16) -> (url: String)
    ensures
        url@ == avatar_address(user_id@, avatar@, size),
{
    String::from_str("https://cdn.discordapp.com").concat("/avatars/").concat(user_id).concat(
        "/",
    ).concat(avatar).concat(".png?size=").concat(decimal_text(size as u64).as_str())
}

/// The address of the avatar for a user without one.
pub fn default_avatar_url(discriminator: u16) -> (url: String)
    ensures
        url@ == default_avatar_address(discriminator),
{
    String::from_str("https://cdn.discordapp.com").concat("/embed/avatars/").concat(
        decimal_text((discriminator % 5) as u64).as_str(),
    ).concat(".png?size=16")
}

/// The address of a channel's icon.
pub fn channel_icon_url(channel_id: &str, icon: &str, size: u16) -> (url: String)
    ensures
        url@ == channel_icon_address(channel_id@, icon@, size),
{
    String::from_str("https://cdn.discordapp.com").concat("/channel-icons/").concat(
        channel_id,
    ).concat("/").concat(icon).concat(".png?size=").concat(decimal_text(size as u64).as_str())
}

} // verus!
