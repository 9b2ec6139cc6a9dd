//! The profile card: the user's greeting, one of a few avatars to step
//! through, and a quote.

use vstd::prelude::*;
use vstd::string::StringExecFns;

verus! {

/// The number of avatars to choose from.
pub const AVATAR_COUNT: usize = 3;

/// The number of quotes.
pub const QUOTE_COUNT: usize = 3;

/// The name of an avatar.
pub open spec fn avatar_name_of(index: int) -> Seq<char> {
    if index == 0 {
        "Cat1"@
    } else if index == 1 {
        "Robot"@
    } else {
        "Ninja"@
    }
}

/// The address of an avatar's picture.
pub open spec fn avatar_address_of(index: int) -> Seq<char> {
    if index == 0 {
        "https://static.vecteezy.com/system/resources/previews/051/558/143/non_2x/shock-cat-meme-sticker-cute-illustration-vector.jpg"@
    } else if index == 1 {
        "https://www.shutterstock.com/image-vector/sunglasses-doge-meme-sticker-tshirt-260nw-2550084977.jpg"@
    } else {
        "https://cdn.idntimes.com/content-images/post/20250304/tangkapan-layar-2025-03-04-pukul-130602-bcf3757607919df15775907d72c06307_600x400.png"@
    }
}

/// A quote.
pub open spec fn quote_of(index: int) -> Seq<char> {
    if index == 0 {
        "\u{201c}Code is like humor. When you have to explain it, it\u{2019}s bad.\u{201d} \u{2013} Cory House"@
    } else if index == 1 {
        "\u{201c}First, solve the problem. Then, write the code.\u{201d} \u{2013} John Johnson"@
    } else {
        "\u{201c}Simplicity is the soul of efficiency.\u{201d} \u{2013} Austin Freeman"@
    }
}

/// The greeting for a user.
pub open spec fn greeting_of(name: Seq<char>) -> Seq<char> {
    "Hello, "@ + name + "!"@
}

/// What the profile screen shows.
#[derive(Clone, Debug, PartialEq, Eq)]
pub struct ProfileCard {
    pub avatar_name: String,
    pub avatar_address: String,
    pub greeting: String,
    pub quote: String,
}

/// Mathematical model of a [`ProfileCard`].
#[verifier::ext_equal]
pub struct ProfileCardModel {
    pub avatar_name: Seq<char>,
    pub avatar_address: Seq<char>,
    pub greeting: Seq<char>,
    pub quote: Seq<char>,
}

impl View for ProfileCard {
    type V = ProfileCardModel;

    open spec fn view(&self) -> ProfileCardModel {
        ProfileCardModel {
            avatar_name: self.avatar_name@,
            avatar_address: self.avatar_address@,
            greeting: self.greeting@,
            quote: self.quote@,
        }
    }
}

/// The card for a user, an avatar and a quote.
pub open spec fn profile_card(name: Seq<char>, avatar: int, quote: int) -> ProfileCardModel {
    ProfileCardModel {
        avatar_name: avatar_name_of(avatar),
        avatar_address: avatar_address_of(avatar),
        greeting: greeting_of(name),
        quote: quote_of(quote),
    }
}

/// The avatar that follows: the next one, and the first one after the last.
pub fn next_avatar(avatar: usize) -> (next: usize)
    requires
        avatar < AVATAR_COUNT,
    ensures
        next == (avatar + 1) % (AVATAR_COUNT as int),
        next < AVATAR_COUNT,
{
    (avatar + 1) % AVATAR_COUNT
}

/// The card that the profile screen shows for the user `name`, with the
/// avatar and the quote of the given numbers.
pub fn profile(name: &str, avatar: usize, quote: usize) -> (card: ProfileCard)
    requires
        avatar < AVATAR_COUNT,
        quote < QUOTE_COUNT,
    ensures
        card@ == profile_card(name@, avatar as int, quote as int),
{
    let (avatar_name, avatar_address) = if avatar == 0 {
        (
            "Cat1",
            "https://static.vecteezy.com/system/resources/previews/051/558/143/non_2x/shock-cat-meme-sticker-cute-illustration-vector.jpg",
        )
    } else if avatar == 1 {
        (
            "Robot",
            "https://www.shutterstock.com/image-vector/sunglasses-doge-meme-sticker-tshirt-260nw-2550084977.jpg",
        )
    } else {
        (
            "Ninja",
            "https://cdn.idntimes.com/content-images/post/20250304/tangkapan-layar-2025-03-04-pukul-130602-bcf3757607919df15775907d72c06307_600x400.png",
        )
    };
    let quote = if quote == 0 {
        "\u{201c}Code is like humor. When you have to explain it, it\u{2019}s bad.\u{201d} \u{2013} Cory House"
    } else if quote == 1 {
        "\u{201c}First, solve the problem. Then, write the code.\u{201d} \u{2013} John Johnson"
    } else {
        "\u{201c}Simplicity is the soul of efficiency.\u{201d} \u{2013} Austin Freeman"
    };
    let mut greeting = "Hello, ".to_owned();
    greeting.append(name);
    greeting.append("!");
    ProfileCard {
        avatar_name: avatar_name.to_owned(),
        avatar_address: avatar_address.to_owned(),
        greeting,
        quote: quote.to_owned(),
    }
}

} // verus!
