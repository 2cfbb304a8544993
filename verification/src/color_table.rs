//! The colour-name dictionary: each known name (compared after ASCII
//! lower-casing) stands for a packed RGBA value, alpha 255, red in the low
//! byte.  The table is split alphabetically to keep each lookup function
//! small.

use vstd::prelude::*;

use crate::text::str_eq;

verus! {

pub open spec fn named_color_a_spec(low: Seq<char>) -> Option<u32> {
    if low == "air force blue"@ {
        Some(0xffa88a5du32)
    } else if low == "alice blue"@ {
        Some(0xfffff8f0u32)
    } else if low == "alizarin crimson"@ {
        Some(0xff3626e3u32)
    } else if low == "almond"@ {
        Some(0xffcddeefu32)
    } else if low == "amaranth"@ {
        Some(0xff502be5u32)
    } else if low == "amber"@ {
        Some(0xff00bfffu32)
    } else if low == "american rose"@ {
        Some(0xff3e03ffu32)
    } else if low == "amethyst"@ {
        Some(0xffcc6699u32)
    } else if low == "android green"@ {
        Some(0xff39c6a4u32)
    } else if low == "anti-flash white"@ {
        Some(0xfff4f3f2u32)
    } else if low == "antique brass"@ {
        Some(0xff7595cdu32)
    } else if low == "antique fuchsia"@ {
        Some(0xff835c91u32)
    } else if low == "antique white"@ {
        Some(0xffd7ebfau32)
    } else if low == "ao"@ {
        Some(0xff008000u32)
    } else if low == "apple green"@ {
        Some(0xff00b68du32)
    } else if low == "apricot"@ {
        Some(0xffb1cefbu32)
    } else if low == "aqua"@ {
        Some(0xffffff00u32)
    } else if low == "aquamarine"@ {
        Some(0xffd4ff7fu32)
    } else if low == "army green"@ {
        Some(0xff20534bu32)
    } else if low == "arylide yellow"@ {
        Some(0xff6bd6e9u32)
    } else if low == "ash gray"@ {
        Some(0xffb5beb2u32)
    } else if low == "asparagus"@ {
        Some(0xff6ba987u32)
    } else if low == "atomic tangerine"@ {
        Some(0xff6699ffu32)
    } else if low == "auburn"@ {
        Some(0xff2a2aa5u32)
    } else if low == "aureolin"@ {
        Some(0xff00eefdu32)
    } else if low == "aurometalsaurus"@ {
        Some(0xff807f6eu32)
    } else if low == "awesome"@ {
        Some(0xff5220ffu32)
    } else if low == "azure"@ {
        Some(0xffff7f00u32)
    } else if low == "azure mist/web"@ {
        Some(0xfffffff0u32)
    } else {
        None
    }
}

fn named_color_a(low: &str) -> (r: Option<u32>)
    ensures
        r == named_color_a_spec(low@),
{
    if str_eq(low, "air force blue") {
        Some(0xffa88a5du32)
    } else if str_eq(low, "alice blue") {
        Some(0xfffff8f0u32)
    } else if str_eq(low, "alizarin crimson") {
        Some(0xff3626e3u32)
    } else if str_eq(low, "almond") {
        Some(0xffcddeefu32)
    } else if str_eq(low, "amaranth") {
        Some(0xff502be5u32)
    } else if str_eq(low, "amber") {
        Some(0xff00bfffu32)
    } else if str_eq(low, "american rose") {
        Some(0xff3e03ffu32)
    } else if str_eq(low, "amethyst") {
        Some(0xffcc6699u32)
    } else if str_eq(low, "android green") {
        Some(0xff39c6a4u32)
    } else if str_eq(low, "anti-flash white") {
        Some(0xfff4f3f2u32)
    } else if str_eq(low, "antique brass") {
        Some(0xff7595cdu32)
    } else if str_eq(low, "antique fuchsia") {
        Some(0xff835c91u32)
    } else if str_eq(low, "antique white") {
        Some(0xffd7ebfau32)
    } else if str_eq(low, "ao") {
        Some(0xff008000u32)
    } else if str_eq(low, "apple green") {
        Some(0xff00b68du32)
    } else if str_eq(low, "apricot") {
        Some(0xffb1cefbu32)
    } else if str_eq(low, "aqua") {
        Some(0xffffff00u32)
    } else if str_eq(low, "aquamarine") {
        Some(0xffd4ff7fu32)
    } else if str_eq(low, "army green") {
        Some(0xff20534bu32)
    } else if str_eq(low, "arylide yellow") {
        Some(0xff6bd6e9u32)
    } else if str_eq(low, "ash gray") {
        Some(0xffb5beb2u32)
    } else if str_eq(low, "asparagus") {
        Some(0xff6ba987u32)
    } else if str_eq(low, "atomic tangerine") {
        Some(0xff6699ffu32)
    } else if str_eq(low, "auburn") {
        Some(0xff2a2aa5u32)
    } else if str_eq(low, "aureolin") {
        Some(0xff00eefdu32)
    } else if str_eq(low, "aurometalsaurus") {
        Some(0xff807f6eu32)
    } else if str_eq(low, "awesome") {
        Some(0xff5220ffu32)
    } else if str_eq(low, "azure") {
        Some(0xffff7f00u32)
    } else if str_eq(low, "azure mist/web") {
        Some(0xfffffff0u32)
    } else {
        None
    }
}

pub open spec fn named_color_b_spec(low: Seq<char>) -> Option<u32> {
    if low == "baby blue"@ {
        Some(0xfff0cf89u32)
    } else if low == "baby blue eyes"@ {
        Some(0xfff1caa1u32)
    } else if low == "baby pink"@ {
        Some(0xffc2c2f4u32)
    } else if low == "ball blue"@ {
        Some(0xffcdab21u32)
    } else if low == "banana mania"@ {
        Some(0xffb5e7fau32)
    } else if low == "banana yellow"@ {
        Some(0xff35e1ffu32)
    } else if low == "battleship gray"@ {
        Some(0xff828484u32)
    } else if low == "bazaar"@ {
        Some(0xff7b7798u32)
    } else if low == "beau blue"@ {
        Some(0xffe6d4bcu32)
    } else if low == "beaver"@ {
        Some(0xff70819fu32)
    } else if low == "beige"@ {
        Some(0xffdcf5f5u32)
    } else if low == "bisque"@ {
        Some(0xffc4e4ffu32)
    } else if low == "bistre"@ {
        Some(0xff1f2b3du32)
    } else if low == "bittersweet"@ {
        Some(0xff5e6ffeu32)
    } else if low == "black"@ {
        Some(0xff000000u32)
    } else if low == "blanched almond"@ {
        Some(0xffcdebffu32)
    } else if low == "bleu de france"@ {
        Some(0xffe78c31u32)
    } else if low == "blizzard blue"@ {
        Some(0xffeee5acu32)
    } else if low == "blond"@ {
        Some(0xffbef0fau32)
    } else if low == "blue"@ {
        Some(0xffff0000u32)
    } else if low == "blue bell"@ {
        Some(0xffd0a2a2u32)
    } else if low == "blue gray"@ {
        Some(0xffcc9966u32)
    } else if low == "blue green"@ {
        Some(0xffba980du32)
    } else if low == "blue purple"@ {
        Some(0xffe22b8au32)
    } else if low == "blue violet"@ {
        Some(0xffe22b8au32)
    } else if low == "blush"@ {
        Some(0xff835ddeu32)
    } else if low == "bole"@ {
        Some(0xff3b4479u32)
    } else if low == "bondi blue"@ {
        Some(0xffb69500u32)
    } else if low == "bone"@ {
        Some(0xffc9dae3u32)
    } else if low == "boston university red"@ {
        Some(0xff0000ccu32)
    } else if low == "bottle green"@ {
        Some(0xff4e6a00u32)
    } else if low == "boysenberry"@ {
        Some(0xff603287u32)
    } else if low == "brandeis blue"@ {
        Some(0xffff7000u32)
    } else if low == "brass"@ {
        Some(0xff42a6b5u32)
    } else if low == "brick red"@ {
        Some(0xff5441cbu32)
    } else if low == "bright cerulean"@ {
        Some(0xffd6ac1du32)
    } else if low == "bright green"@ {
        Some(0xff00ff66u32)
    } else if low == "bright lavender"@ {
        Some(0xffe494bfu32)
    } else if low == "bright maroon"@ {
        Some(0xff4821c3u32)
    } else if low == "bright pink"@ {
        Some(0xff7f00ffu32)
    } else if low == "bright turquoise"@ {
        Some(0xffdee808u32)
    } else if low == "bright ube"@ {
        Some(0xffe89fd1u32)
    } else if low == "brilliant lavender"@ {
        Some(0xffffbbf4u32)
    } else if low == "brilliant rose"@ {
        Some(0xffa355ffu32)
    } else if low == "brink pink"@ {
        Some(0xff7f60fbu32)
    } else if low == "british racing green"@ {
        Some(0xff254200u32)
    } else if low == "bronze"@ {
        Some(0xff327fcdu32)
    } else if low == "brown"@ {
        Some(0xff2a2aa5u32)
    } else if low == "bubble gum"@ {
        Some(0xffccc1ffu32)
    } else if low == "bubbles"@ {
        Some(0xfffffee7u32)
    } else if low == "buff"@ {
        Some(0xff82dcf0u32)
    } else if low == "bulgarian rose"@ {
        Some(0xff070648u32)
    } else if low == "burgundy"@ {
        Some(0xff200080u32)
    } else if low == "burlywood"@ {
        Some(0xff87b8deu32)
    } else if low == "burnt orange"@ {
        Some(0xff0055ccu32)
    } else if low == "burnt sienna"@ {
        Some(0xff5174e9u32)
    } else if low == "burnt umber"@ {
        Some(0xff24338au32)
    } else if low == "byzantine"@ {
        Some(0xffa433bdu32)
    } else if low == "byzantium"@ {
        Some(0xff632970u32)
    } else {
        None
    }
}

fn named_color_b(low: &str) -> (r: Option<u32>)
    ensures
        r == named_color_b_spec(low@),
{
    if str_eq(low, "baby blue") {
        Some(0xfff0cf89u32)
    } else if str_eq(low, "baby blue eyes") {
        Some(0xfff1caa1u32)
    } else if str_eq(low, "baby pink") {
        Some(0xffc2c2f4u32)
    } else if str_eq(low, "ball blue") {
        Some(0xffcdab21u32)
    } else if str_eq(low, "banana mania") {
        Some(0xffb5e7fau32)
    } else if str_eq(low, "banana yellow") {
        Some(0xff35e1ffu32)
    } else if str_eq(low, "battleship gray") {
        Some(0xff828484u32)
    } else if str_eq(low, "bazaar") {
        Some(0xff7b7798u32)
    } else if str_eq(low, "beau blue") {
        Some(0xffe6d4bcu32)
    } else if str_eq(low, "beaver") {
        Some(0xff70819fu32)
    } else if str_eq(low, "beige") {
        Some(0xffdcf5f5u32)
    } else if str_eq(low, "bisque") {
        Some(0xffc4e4ffu32)
    } else if str_eq(low, "bistre") {
        Some(0xff1f2b3du32)
    } else if str_eq(low, "bittersweet") {
        Some(0xff5e6ffeu32)
    } else if str_eq(low, "black") {
        Some(0xff000000u32)
    } else if str_eq(low, "blanched almond") {
        Some(0xffcdebffu32)
    } else if str_eq(low, "bleu de france") {
        Some(0xffe78c31u32)
    } else if str_eq(low, "blizzard blue") {
        Some(0xffeee5acu32)
    } else if str_eq(low, "blond") {
        Some(0xffbef0fau32)
    } else if str_eq(low, "blue") {
        Some(0xffff0000u32)
    } else if str_eq(low, "blue bell") {
        Some(0xffd0a2a2u32)
    } else if str_eq(low, "blue gray") {
        Some(0xffcc9966u32)
    } else if str_eq(low, "blue green") {
        Some(0xffba980du32)
    } else if str_eq(low, "blue purple") {
        Some(0xffe22b8au32)
    } else if str_eq(low, "blue violet") {
        Some(0xffe22b8au32)
    } else if str_eq(low, "blush") {
        Some(0xff835ddeu32)
    } else if str_eq(low, "bole") {
        Some(0xff3b4479u32)
    } else if str_eq(low, "bondi blue") {
        Some(0xffb69500u32)
    } else if str_eq(low, "bone") {
        Some(0xffc9dae3u32)
    } else if str_eq(low, "boston university red") {
        Some(0xff0000ccu32)
    } else if str_eq(low, "bottle green") {
        Some(0xff4e6a00u32)
    } else if str_eq(low, "boysenberry") {
        Some(0xff603287u32)
    } else if str_eq(low, "brandeis blue") {
        Some(0xffff7000u32)
    } else if str_eq(low, "brass") {
        Some(0xff42a6b5u32)
    } else if str_eq(low, "brick red") {
        Some(0xff5441cbu32)
    } else if str_eq(low, "bright cerulean") {
        Some(0xffd6ac1du32)
    } else if str_eq(low, "bright green") {
        Some(0xff00ff66u32)
    } else if str_eq(low, "bright lavender") {
        Some(0xffe494bfu32)
    } else if str_eq(low, "bright maroon") {
        Some(0xff4821c3u32)
    } else if str_eq(low, "bright pink") {
        Some(0xff7f00ffu32)
    } else if str_eq(low, "bright turquoise") {
        Some(0xffdee808u32)
    } else if str_eq(low, "bright ube") {
        Some(0xffe89fd1u32)
    } else if str_eq(low, "brilliant lavender") {
        Some(0xffffbbf4u32)
    } else if str_eq(low, "brilliant rose") {
        Some(0xffa355ffu32)
    } else if str_eq(low, "brink pink") {
        Some(0xff7f60fbu32)
    } else if str_eq(low, "british racing green") {
        Some(0xff254200u32)
    } else if str_eq(low, "bronze") {
        Some(0xff327fcdu32)
    } else if str_eq(low, "brown") {
        Some(0xff2a2aa5u32)
    } else if str_eq(low, "bubble gum") {
        Some(0xffccc1ffu32)
    } else if str_eq(low, "bubbles") {
        Some(0xfffffee7u32)
    } else if str_eq(low, "buff") {
        Some(0xff82dcf0u32)
    } else if str_eq(low, "bulgarian rose") {
        Some(0xff070648u32)
    } else if str_eq(low, "burgundy") {
        Some(0xff200080u32)
    } else if str_eq(low, "burlywood") {
        Some(0xff87b8deu32)
    } else if str_eq(low, "burnt orange") {
        Some(0xff0055ccu32)
    } else if str_eq(low, "burnt sienna") {
        Some(0xff5174e9u32)
    } else if str_eq(low, "burnt umber") {
        Some(0xff24338au32)
    } else if str_eq(low, "byzantine") {
        Some(0xffa433bdu32)
    } else if str_eq(low, "byzantium") {
        Some(0xff632970u32)
    } else {
        None
    }
}

pub open spec fn named_color_c_spec(low: Seq<char>) -> Option<u32> {
    if low == "cg blue"@ {
        Some(0xffa57a00u32)
    } else if low == "cg red"@ {
        Some(0xff313ce0u32)
    } else if low == "cadet"@ {
        Some(0xff726853u32)
    } else if low == "cadet blue"@ {
        Some(0xffa09e5fu32)
    } else if low == "cadet gray"@ {
        Some(0xffb0a391u32)
    } else if low == "cadmium green"@ {
        Some(0xff3c6b00u32)
    } else if low == "cadmium orange"@ {
        Some(0xff2d87edu32)
    } else if low == "cadmium red"@ {
        Some(0xff2200e3u32)
    } else if low == "cadmium yellow"@ {
        Some(0xff00f6ffu32)
    } else if low == "cafe au lait"@ {
        Some(0xff5b7ba6u32)
    } else if low == "cafe noir"@ {
        Some(0xff21364bu32)
    } else if low == "cal poly pomona green"@ {
        Some(0xff2b4d1eu32)
    } else if low == "cambridge blue"@ {
        Some(0xffadc1a3u32)
    } else if low == "camel"@ {
        Some(0xff6b9ac1u32)
    } else if low == "camouflage green"@ {
        Some(0xff6b8678u32)
    } else if low == "canary"@ {
        Some(0xff99ffffu32)
    } else if low == "canary yellow"@ {
        Some(0xff00efffu32)
    } else if low == "candy apple red"@ {
        Some(0xff0008ffu32)
    } else if low == "candy pink"@ {
        Some(0xff7a71e4u32)
    } else if low == "capri"@ {
        Some(0xffffbf00u32)
    } else if low == "caput mortuum"@ {
        Some(0xff202759u32)
    } else if low == "cardinal"@ {
        Some(0xff3a1ec4u32)
    } else if low == "caribbean green"@ {
        Some(0xff99cc00u32)
    } else if low == "carmine"@ {
        Some(0xff4000ffu32)
    } else if low == "carmine pink"@ {
        Some(0xff424cebu32)
    } else if low == "carmine red"@ {
        Some(0xff3800ffu32)
    } else if low == "carnation pink"@ {
        Some(0xffc9a6ffu32)
    } else if low == "carnelian"@ {
        Some(0xff1b1bb3u32)
    } else if low == "carolina blue"@ {
        Some(0xffddba99u32)
    } else if low == "carrot orange"@ {
        Some(0xff2191edu32)
    } else if low == "celadon"@ {
        Some(0xffafe1acu32)
    } else if low == "celeste"@ {
        Some(0xffffffb2u32)
    } else if low == "celestial blue"@ {
        Some(0xffd09749u32)
    } else if low == "cerise"@ {
        Some(0xff6331deu32)
    } else if low == "cerise pink"@ {
        Some(0xff833becu32)
    } else if low == "cerulean"@ {
        Some(0xffa77b00u32)
    } else if low == "cerulean blue"@ {
        Some(0xffbe522au32)
    } else if low == "chamoisee"@ {
        Some(0xff5a78a0u32)
    } else if low == "champagne"@ {
        Some(0xffa5d6fau32)
    } else if low == "charcoal"@ {
        Some(0xff4f4536u32)
    } else if low == "chartreuse"@ {
        Some(0xff00ff7fu32)
    } else if low == "cherry"@ {
        Some(0xff6331deu32)
    } else if low == "cherry blossom pink"@ {
        Some(0xffc5b7ffu32)
    } else if low == "chestnut"@ {
        Some(0xff5c5ccdu32)
    } else if low == "chocolate"@ {
        Some(0xff1e69d2u32)
    } else if low == "chrome yellow"@ {
        Some(0xff00a7ffu32)
    } else if low == "cinereous"@ {
        Some(0xff7b8198u32)
    } else if low == "cinnabar"@ {
        Some(0xff3442e3u32)
    } else if low == "cinnamon"@ {
        Some(0xff1e69d2u32)
    } else if low == "citrine"@ {
        Some(0xff0ad0e4u32)
    } else if low == "classic rose"@ {
        Some(0xffe7ccfbu32)
    } else if low == "cobalt"@ {
        Some(0xffab4700u32)
    } else if low == "cocoa brown"@ {
        Some(0xff1e69d2u32)
    } else if low == "coffee"@ {
        Some(0xff374e6fu32)
    } else if low == "columbia blue"@ {
        Some(0xffffdd9bu32)
    } else if low == "cool black"@ {
        Some(0xff632e00u32)
    } else if low == "cool gray"@ {
        Some(0xffac928cu32)
    } else if low == "copper"@ {
        Some(0xff3373b8u32)
    } else if low == "copper rose"@ {
        Some(0xff666699u32)
    } else if low == "coquelicot"@ {
        Some(0xff0038ffu32)
    } else if low == "coral"@ {
        Some(0xff507fffu32)
    } else if low == "coral pink"@ {
        Some(0xff7983f8u32)
    } else if low == "coral red"@ {
        Some(0xff4040ffu32)
    } else if low == "cordovan"@ {
        Some(0xff453f89u32)
    } else if low == "corn"@ {
        Some(0xff5decfbu32)
    } else if low == "cornell red"@ {
        Some(0xff1b1bb3u32)
    } else if low == "cornflower"@ {
        Some(0xffebce9au32)
    } else if low == "cornflower blue"@ {
        Some(0xffed9564u32)
    } else if low == "cornsilk"@ {
        Some(0xffdcf8ffu32)
    } else if low == "cosmic latte"@ {
        Some(0xffe7f8ffu32)
    } else if low == "cotton candy"@ {
        Some(0xffd9bcffu32)
    } else if low == "cream"@ {
        Some(0xffd0fdffu32)
    } else if low == "crimson"@ {
        Some(0xff3c14dcu32)
    } else if low == "crimson red"@ {
        Some(0xff000099u32)
    } else if low == "crimson glory"@ {
        Some(0xff3200beu32)
    } else if low == "cyan"@ {
        Some(0xffffff00u32)
    } else {
        None
    }
}

fn named_color_c(low: &str) -> (r: Option<u32>)
    ensures
        r == named_color_c_spec(low@),
{
    if str_eq(low, "cg blue") {
        Some(0xffa57a00u32)
    } else if str_eq(low, "cg red") {
        Some(0xff313ce0u32)
    } else if str_eq(low, "cadet") {
        Some(0xff726853u32)
    } else if str_eq(low, "cadet blue") {
        Some(0xffa09e5fu32)
    } else if str_eq(low, "cadet gray") {
        Some(0xffb0a391u32)
    } else if str_eq(low, "cadmium green") {
        Some(0xff3c6b00u32)
    } else if str_eq(low, "cadmium orange") {
        Some(0xff2d87edu32)
    } else if str_eq(low, "cadmium red") {
        Some(0xff2200e3u32)
    } else if str_eq(low, "cadmium yellow") {
        Some(0xff00f6ffu32)
    } else if str_eq(low, "cafe au lait") {
        Some(0xff5b7ba6u32)
    } else if str_eq(low, "cafe noir") {
        Some(0xff21364bu32)
    } else if str_eq(low, "cal poly pomona green") {
        Some(0xff2b4d1eu32)
    } else if str_eq(low, "cambridge blue") {
        Some(0xffadc1a3u32)
    } else if str_eq(low, "camel") {
        Some(0xff6b9ac1u32)
    } else if str_eq(low, "camouflage green") {
        Some(0xff6b8678u32)
    } else if str_eq(low, "canary") {
        Some(0xff99ffffu32)
    } else if str_eq(low, "canary yellow") {
        Some(0xff00efffu32)
    } else if str_eq(low, "candy apple red") {
        Some(0xff0008ffu32)
    } else if str_eq(low, "candy pink") {
        Some(0xff7a71e4u32)
    } else if str_eq(low, "capri") {
        Some(0xffffbf00u32)
    } else if str_eq(low, "caput mortuum") {
        Some(0xff202759u32)
    } else if str_eq(low, "cardinal") {
        Some(0xff3a1ec4u32)
    } else if str_eq(low, "caribbean green") {
        Some(0xff99cc00u32)
    } else if str_eq(low, "carmine") {
        Some(0xff4000ffu32)
    } else if str_eq(low, "carmine pink") {
        Some(0xff424cebu32)
    } else if str_eq(low, "carmine red") {
        Some(0xff3800ffu32)
    } else if str_eq(low, "carnation pink") {
        Some(0xffc9a6ffu32)
    } else if str_eq(low, "carnelian") {
        Some(0xff1b1bb3u32)
    } else if str_eq(low, "carolina blue") {
        Some(0xffddba99u32)
    } else if str_eq(low, "carrot orange") {
        Some(0xff2191edu32)
    } else if str_eq(low, "celadon") {
        Some(0xffafe1acu32)
    } else if str_eq(low, "celeste") {
        Some(0xffffffb2u32)
    } else if str_eq(low, "celestial blue") {
        Some(0xffd09749u32)
    } else if str_eq(low, "cerise") {
        Some(0xff6331deu32)
    } else if str_eq(low, "cerise pink") {
        Some(0xff833becu32)
    } else if str_eq(low, "cerulean") {
        Some(0xffa77b00u32)
    } else if str_eq(low, "cerulean blue") {
        Some(0xffbe522au32)
    } else if str_eq(low, "chamoisee") {
        Some(0xff5a78a0u32)
    } else if str_eq(low, "champagne") {
        Some(0xffa5d6fau32)
    } else if str_eq(low, "charcoal") {
        Some(0xff4f4536u32)
    } else if str_eq(low, "chartreuse") {
        Some(0xff00ff7fu32)
    } else if str_eq(low, "cherry") {
        Some(0xff6331deu32)
    } else if str_eq(low, "cherry blossom pink") {
        Some(0xffc5b7ffu32)
    } else if str_eq(low, "chestnut") {
        Some(0xff5c5ccdu32)
    } else if str_eq(low, "chocolate") {
        Some(0xff1e69d2u32)
    } else if str_eq(low, "chrome yellow") {
        Some(0xff00a7ffu32)
    } else if str_eq(low, "cinereous") {
        Some(0xff7b8198u32)
    } else if str_eq(low, "cinnabar") {
        Some(0xff3442e3u32)
    } else if str_eq(low, "cinnamon") {
        Some(0xff1e69d2u32)
    } else if str_eq(low, "citrine") {
        Some(0xff0ad0e4u32)
    } else if str_eq(low, "classic rose") {
        Some(0xffe7ccfbu32)
    } else if str_eq(low, "cobalt") {
        Some(0xffab4700u32)
    } else if str_eq(low, "cocoa brown") {
        Some(0xff1e69d2u32)
    } else if str_eq(low, "coffee") {
        Some(0xff374e6fu32)
    } else if str_eq(low, "columbia blue") {
        Some(0xffffdd9bu32)
    } else if str_eq(low, "cool black") {
        Some(0xff632e00u32)
    } else if str_eq(low, "cool gray") {
        Some(0xffac928cu32)
    } else if str_eq(low, "copper") {
        Some(0xff3373b8u32)
    } else if str_eq(low, "copper rose") {
        Some(0xff666699u32)
    } else if str_eq(low, "coquelicot") {
        Some(0xff0038ffu32)
    } else if str_eq(low, "coral") {
        Some(0xff507fffu32)
    } else if str_eq(low, "coral pink") {
        Some(0xff7983f8u32)
    } else if str_eq(low, "coral red") {
        Some(0xff4040ffu32)
    } else if str_eq(low, "cordovan") {
        Some(0xff453f89u32)
    } else if str_eq(low, "corn") {
        Some(0xff5decfbu32)
    } else if str_eq(low, "cornell red") {
        Some(0xff1b1bb3u32)
    } else if str_eq(low, "cornflower") {
        Some(0xffebce9au32)
    } else if str_eq(low, "cornflower blue") {
        Some(0xffed9564u32)
    } else if str_eq(low, "cornsilk") {
        Some(0xffdcf8ffu32)
    } else if str_eq(low, "cosmic latte") {
        Some(0xffe7f8ffu32)
    } else if str_eq(low, "cotton candy") {
        Some(0xffd9bcffu32)
    } else if str_eq(low, "cream") {
        Some(0xffd0fdffu32)
    } else if str_eq(low, "crimson") {
        Some(0xff3c14dcu32)
    } else if str_eq(low, "crimson red") {
        Some(0xff000099u32)
    } else if str_eq(low, "crimson glory") {
        Some(0xff3200beu32)
    } else if str_eq(low, "cyan") {
        Some(0xffffff00u32)
    } else {
        None
    }
}

pub open spec fn named_color_d_spec(low: Seq<char>) -> Option<u32> {
    if low == "daffodil"@ {
        Some(0xff31ffffu32)
    } else if low == "dandelion"@ {
        Some(0xff30e1f0u32)
    } else if low == "dark blue"@ {
        Some(0xff8b0000u32)
    } else if low == "dark brown"@ {
        Some(0xff214365u32)
    } else if low == "dark byzantium"@ {
        Some(0xff54395du32)
    } else if low == "dark candy apple red"@ {
        Some(0xff0000a4u32)
    } else if low == "dark cerulean"@ {
        Some(0xff7e4508u32)
    } else if low == "dark chestnut"@ {
        Some(0xff606998u32)
    } else if low == "dark coral"@ {
        Some(0xff455bcdu32)
    } else if low == "dark cyan"@ {
        Some(0xff8b8b00u32)
    } else if low == "dark electric blue"@ {
        Some(0xff786853u32)
    } else if low == "dark goldenrod"@ {
        Some(0xff0b86b8u32)
    } else if low == "dark gray"@ {
        Some(0xffa9a9a9u32)
    } else if low == "dark green"@ {
        Some(0xff203201u32)
    } else if low == "dark jungle green"@ {
        Some(0xff21241au32)
    } else if low == "dark khaki"@ {
        Some(0xff6bb7bdu32)
    } else if low == "dark lava"@ {
        Some(0xff323c48u32)
    } else if low == "dark lavender"@ {
        Some(0xff964f73u32)
    } else if low == "dark magenta"@ {
        Some(0xff8b008bu32)
    } else if low == "dark midnight blue"@ {
        Some(0xff663300u32)
    } else if low == "dark olive green"@ {
        Some(0xff2f6b55u32)
    } else if low == "dark orange"@ {
        Some(0xff008cffu32)
    } else if low == "dark orchid"@ {
        Some(0xffcc3299u32)
    } else if low == "dark pastel blue"@ {
        Some(0xffcb9e77u32)
    } else if low == "dark pastel green"@ {
        Some(0xff3cc003u32)
    } else if low == "dark pastel purple"@ {
        Some(0xffd66f96u32)
    } else if low == "dark pastel red"@ {
        Some(0xff223bc2u32)
    } else if low == "dark pink"@ {
        Some(0xff8054e7u32)
    } else if low == "dark powder blue"@ {
        Some(0xff993300u32)
    } else if low == "dark raspberry"@ {
        Some(0xff572687u32)
    } else if low == "dark red"@ {
        Some(0xff00008bu32)
    } else if low == "dark salmon"@ {
        Some(0xff7a96e9u32)
    } else if low == "dark scarlet"@ {
        Some(0xff190356u32)
    } else if low == "dark sea green"@ {
        Some(0xff8fbc8fu32)
    } else if low == "dark sienna"@ {
        Some(0xff14143cu32)
    } else if low == "dark slate blue"@ {
        Some(0xff8b3d48u32)
    } else if low == "dark slate gray"@ {
        Some(0xff4f4f2fu32)
    } else if low == "dark spring green"@ {
        Some(0xff457217u32)
    } else if low == "dark tan"@ {
        Some(0xff518191u32)
    } else if low == "dark tangerine"@ {
        Some(0xff12a8ffu32)
    } else if low == "dark taupe"@ {
        Some(0xff323c48u32)
    } else if low == "dark terra cotta"@ {
        Some(0xff5c4eccu32)
    } else if low == "dark turquoise"@ {
        Some(0xffd1ce00u32)
    } else if low == "dark violet"@ {
        Some(0xffd30094u32)
    } else if low == "dartmouth green"@ {
        Some(0xff3e6900u32)
    } else if low == "davy gray"@ {
        Some(0xff555555u32)
    } else {
        None
    }
}

fn named_color_d(low: &str) -> (r: Option<u32>)
    ensures
        r == named_color_d_spec(low@),
{
    if str_eq(low, "daffodil") {
        Some(0xff31ffffu32)
    } else if str_eq(low, "dandelion") {
        Some(0xff30e1f0u32)
    } else if str_eq(low, "dark blue") {
        Some(0xff8b0000u32)
    } else if str_eq(low, "dark brown") {
        Some(0xff214365u32)
    } else if str_eq(low, "dark byzantium") {
        Some(0xff54395du32)
    } else if str_eq(low, "dark candy apple red") {
        Some(0xff0000a4u32)
    } else if str_eq(low, "dark cerulean") {
        Some(0xff7e4508u32)
    } else if str_eq(low, "dark chestnut") {
        Some(0xff606998u32)
    } else if str_eq(low, "dark coral") {
        Some(0xff455bcdu32)
    } else if str_eq(low, "dark cyan") {
        Some(0xff8b8b00u32)
    } else if str_eq(low, "dark electric blue") {
        Some(0xff786853u32)
    } else if str_eq(low, "dark goldenrod") {
        Some(0xff0b86b8u32)
    } else if str_eq(low, "dark gray") {
        Some(0xffa9a9a9u32)
    } else if str_eq(low, "dark green") {
        Some(0xff203201u32)
    } else if str_eq(low, "dark jungle green") {
        Some(0xff21241au32)
    } else if str_eq(low, "dark khaki") {
        Some(0xff6bb7bdu32)
    } else if str_eq(low, "dark lava") {
        Some(0xff323c48u32)
    } else if str_eq(low, "dark lavender") {
        Some(0xff964f73u32)
    } else if str_eq(low, "dark magenta") {
        Some(0xff8b008bu32)
    } else if str_eq(low, "dark midnight blue") {
        Some(0xff663300u32)
    } else if str_eq(low, "dark olive green") {
        Some(0xff2f6b55u32)
    } else if str_eq(low, "dark orange") {
        Some(0xff008cffu32)
    } else if str_eq(low, "dark orchid") {
        Some(0xffcc3299u32)
    } else if str_eq(low, "dark pastel blue") {
        Some(0xffcb9e77u32)
    } else if str_eq(low, "dark pastel green") {
        Some(0xff3cc003u32)
    } else if str_eq(low, "dark pastel purple") {
        Some(0xffd66f96u32)
    } else if str_eq(low, "dark pastel red") {
        Some(0xff223bc2u32)
    } else if str_eq(low, "dark pink") {
        Some(0xff8054e7u32)
    } else if str_eq(low, "dark powder blue") {
        Some(0xff993300u32)
    } else if str_eq(low, "dark raspberry") {
        Some(0xff572687u32)
    } else if str_eq(low, "dark red") {
        Some(0xff00008bu32)
    } else if str_eq(low, "dark salmon") {
        Some(0xff7a96e9u32)
    } else if str_eq(low, "dark scarlet") {
        Some(0xff190356u32)
    } else if str_eq(low, "dark sea green") {
        Some(0xff8fbc8fu32)
    } else if str_eq(low, "dark sienna") {
        Some(0xff14143cu32)
    } else if str_eq(low, "dark slate blue") {
        Some(0xff8b3d48u32)
    } else if str_eq(low, "dark slate gray") {
        Some(0xff4f4f2fu32)
    } else if str_eq(low, "dark spring green") {
        Some(0xff457217u32)
    } else if str_eq(low, "dark tan") {
        Some(0xff518191u32)
    } else if str_eq(low, "dark tangerine") {
        Some(0xff12a8ffu32)
    } else if str_eq(low, "dark taupe") {
        Some(0xff323c48u32)
    } else if str_eq(low, "dark terra cotta") {
        Some(0xff5c4eccu32)
    } else if str_eq(low, "dark turquoise") {
        Some(0xffd1ce00u32)
    } else if str_eq(low, "dark violet") {
        Some(0xffd30094u32)
    } else if str_eq(low, "dartmouth green") {
        Some(0xff3e6900u32)
    } else if str_eq(low, "davy gray") {
        Some(0xff555555u32)
    } else {
        None
    }
}

pub open spec fn named_color_rest_spec(low: Seq<char>) -> Option<u32> {
    if low == "fuchsia"@ {
        Some(0xffff00ffu32)
    } else if low == "gray"@ {
        Some(0xff808080u32)
    } else if low == "green"@ {
        Some(0xff00ff00u32)
    } else if low == "magenta"@ {
        Some(0xffff00ffu32)
    } else if low == "maroon"@ {
        Some(0xff000080u32)
    } else if low == "navy blue"@ {
        Some(0xff800000u32)
    } else if low == "olive"@ {
        Some(0xff008080u32)
    } else if low == "purple"@ {
        Some(0xff800080u32)
    } else if low == "red"@ {
        Some(0xff0000ffu32)
    } else if low == "silver"@ {
        Some(0xffc0c0c0u32)
    } else if low == "teal"@ {
        Some(0xff808000u32)
    } else if low == "white"@ {
        Some(0xffffffffu32)
    } else if low == "yellow"@ {
        Some(0xff00ffffu32)
    } else {
        None
    }
}

fn named_color_rest(low: &str) -> (r: Option<u32>)
    ensures
        r == named_color_rest_spec(low@),
{
    if str_eq(low, "fuchsia") {
        Some(0xffff00ffu32)
    } else if str_eq(low, "gray") {
        Some(0xff808080u32)
    } else if str_eq(low, "green") {
        Some(0xff00ff00u32)
    } else if str_eq(low, "magenta") {
        Some(0xffff00ffu32)
    } else if str_eq(low, "maroon") {
        Some(0xff000080u32)
    } else if str_eq(low, "navy blue") {
        Some(0xff800000u32)
    } else if str_eq(low, "olive") {
        Some(0xff008080u32)
    } else if str_eq(low, "purple") {
        Some(0xff800080u32)
    } else if str_eq(low, "red") {
        Some(0xff0000ffu32)
    } else if str_eq(low, "silver") {
        Some(0xffc0c0c0u32)
    } else if str_eq(low, "teal") {
        Some(0xff808000u32)
    } else if str_eq(low, "white") {
        Some(0xffffffffu32)
    } else if str_eq(low, "yellow") {
        Some(0xff00ffffu32)
    } else {
        None
    }
}

/// The packed RGBA value a lower-cased colour name stands for, if the
/// dictionary knows the name.
pub open spec fn named_color_spec(low: Seq<char>) -> Option<u32> {
    match named_color_a_spec(low) {
        Some(v) => Some(v),
        None => match named_color_b_spec(low) {
            Some(v) => Some(v),
            None => match named_color_c_spec(low) {
                Some(v) => Some(v),
                None => match named_color_d_spec(low) {
                    Some(v) => Some(v),
                    None => named_color_rest_spec(low),
                },
            },
        },
    }
}

/// Looks a lower-cased colour name up in the dictionary.
pub fn lookup_named_color(low: &str) -> (r: Option<u32>)
    ensures
        r == named_color_spec(low@),
{
    match named_color_a(low) {
        Some(v) => Some(v),
        None => match named_color_b(low) {
            Some(v) => Some(v),
            None => match named_color_c(low) {
                Some(v) => Some(v),
                None => match named_color_d(low) {
                    Some(v) => Some(v),
                    None => named_color_rest(low),
                },
            },
        },
    }
}

} // verus!
