//! The interactive selections: the static site table keyed by a number,
//! and the parsing of numeric prompt input for sites, ports and tunnel
//! types.
//!
//! Reading from the terminal and re-prompting stay in the unverified
//! shell; every accept-or-reject decision on the input text is made, and
//! specified, here.

use vstd::prelude::*;
use crate::platform::Os;
use crate::text::{
    digits_value,
    eq_str,
    is_dec_u16,
    is_dec_u32,
    parse_u16,
    parse_u32,
    strip_plus,
    trim_seq,
    trim_str,
};

verus! {

/// The default port the capture web service binds when the prompt is left
/// empty.
pub const DEFAULT_PORT: u16 = 8080;

/// The loopback host the capture web service binds.
pub const HOST: &'static str = "127.0.0.1";

/// The static site table: for a numeric selection, the site key, the
/// decoy URL shown before the real destination, and the real destination
/// URL.  The `about` and `exit` sentinels carry no URLs; a number outside
/// the table is no selection at all.
pub open spec fn spec_site_selection(selection: u16) -> Option<
    (Seq<char>, Option<Seq<char>>, Option<Seq<char>>),
> {
    match selection {
        1 => Some(("facebook"@, None, Some("https://www.facebook.com/"@))),
        2 => Some(("instagram"@, None, Some("https://www.instagram.com/"@))),
        3 => Some(("google"@, None, Some("https://www.google.com/"@))),
        4 => Some(("microsoft"@, Some("https://unlimited-onedrive-space-for-free"@), Some("https://www.microsoft.com/"@))),
        5 => Some(("netflix"@, Some("https://upgrade-your-netflix-plan-free"@), Some("https://www.netflix.com/"@))),
        6 => Some(("paypal"@, Some("https://get-500-usd-free-to-your-acount"@), Some("https://www.paypal.com/"@))),
        7 => Some(("steam"@, Some("https://steam-500-usd-gift-card-free"@), Some("https://store.steampowered.com/"@))),
        8 => Some(("twitter"@, Some("https://get-blue-badge-on-twitter-free"@), Some("https://twitter.com/"@))),
        9 => Some(("playstation"@, Some("https://playstation-500-usd-gift-card-free"@), Some("https://www.playstation.com/"@))),
        10 => Some(("tiktok"@, Some("https://tiktok-free-liker"@), Some("https://www.tiktok.com/"@))),
        11 => Some(("twitch"@, Some("https://unlimited-twitch-tv-user-for-free"@), Some("https://www.twitch.tv/"@))),
        12 => Some(("pinterest"@, Some("https://get-a-premium-plan-for-pinterest-free"@), Some("https://www.pinterest.com/"@))),
        13 => Some(("snapchat"@, Some("https://view-locked-snapchat-accounts-secretly"@), Some("https://www.snapchat.com/"@))),
        14 => Some(("linkedin"@, Some("https://get-a-premium-plan-for-linkedin-free"@), Some("https://www.linkedin.com/"@))),
        15 => Some(("ebay"@, Some("https://get-500-usd-free-to-your-acount"@), Some("https://www.ebay.com/"@))),
        16 => Some(("quora"@, Some("https://quora-premium-for-free"@), Some("https://www.quora.com/"@))),
        17 => Some(("protonmail"@, Some("https://protonmail-pro-basics-for-free"@), Some("https://protonmail.com/"@))),
        18 => Some(("spotify"@, Some("https://convert-your-account-to-spotify-premium"@), Some("https://www.spotify.com/"@))),
        19 => Some(("reddit"@, Some("https://reddit-official-verified-member-badge"@), Some("https://www.reddit.com/"@))),
        20 => Some(("adobe"@, Some("https://get-adobe-lifetime-pro-membership-free"@), Some("https://www.adobe.com/"@))),
        21 => Some(("deviantart"@, Some("https://get-500-usd-free-to-your-acount"@), Some("https://www.deviantart.com/"@))),
        22 => Some(("badoo"@, Some("https://get-500-usd-free-to-your-acount"@), Some("https://badoo.com/"@))),
        23 => Some(("origin"@, Some("https://get-500-usd-free-to-your-acount"@), Some("https://www.origin.com/"@))),
        24 => Some(("dropbox"@, Some("https://get-1TB-cloud-storage-free"@), Some("https://www.dropbox.com/"@))),
        25 => Some(("yahoo"@, Some("https://grab-mail-from-anyother-yahoo-account-free"@), Some("https://www.yahoo.com/"@))),
        26 => Some(("wordpress"@, Some("https://unlimited-wordpress-traffic-free"@), Some("https://wordpress.com/"@))),
        27 => Some(("yandex"@, Some("https://grab-mail-from-anyother-yandex-account-free"@), Some("https://yandex.com/"@))),
        28 => Some(("stackoverflow"@, Some("https://get-stackoverflow-lifetime-pro-membership-free"@), Some("https://stackoverflow.com/"@))),
        29 => Some(("vk"@, None, Some("https://vk.com/"@))),
        30 => Some(("xbox"@, Some("https://get-500-usd-free-to-your-acount"@), Some("https://www.xbox.com/"@))),
        31 => Some(("mediafire"@, Some("https://get-1TB-on-mediafire-free"@), Some("https://www.mediafire.com/"@))),
        32 => Some(("gitlab"@, Some("https://get-1k-followers-on-gitlab-free"@), Some("https://gitlab.com/"@))),
        33 => Some(("github"@, Some("https://get-1k-followers-on-github-free"@), Some("https://github.com/"@))),
        34 => Some(("discord"@, Some("https://get-discord-nitro-free"@), Some("https://discord.com/"@))),
        35 => Some(("roblox"@, Some("https://get-free-robux"@), Some("https://www.roblox.com/"@))),
        99 => Some(("about"@, None, None)),
        0 => Some(("exit"@, None, None)),
        _ => None,
    }
}

/// The view of an optional borrowed string.
pub open spec fn opt_view(o: Option<&str>) -> Option<Seq<char>> {
    match o {
        None => None,
        Some(s) => Some(s@),
    }
}

/// Looks a numeric selection up in the static site table.  Exactly the
/// listed selections, the `about` and `exit` sentinels among them, yield
/// an entry; anything else yields none and the caller prompts again.
pub fn site_selection(selection: u16) -> (r: Option<
    (&'static str, Option<&'static str>, Option<&'static str>),
>)
    ensures
        r is Some <==> spec_site_selection(selection) is Some,
        r matches Some(t) ==> (spec_site_selection(selection) matches Some(e) && t.0@ == e.0
            && opt_view(t.1) == e.1 && opt_view(t.2) == e.2),
{
    match selection {
        1 => Some(("facebook", None, Some("https://www.facebook.com/"))),
        2 => Some(("instagram", None, Some("https://www.instagram.com/"))),
        3 => Some(("google", None, Some("https://www.google.com/"))),
        4 => Some(("microsoft", Some("https://unlimited-onedrive-space-for-free"), Some("https://www.microsoft.com/"))),
        5 => Some(("netflix", Some("https://upgrade-your-netflix-plan-free"), Some("https://www.netflix.com/"))),
        6 => Some(("paypal", Some("https://get-500-usd-free-to-your-acount"), Some("https://www.paypal.com/"))),
        7 => Some(("steam", Some("https://steam-500-usd-gift-card-free"), Some("https://store.steampowered.com/"))),
        8 => Some(("twitter", Some("https://get-blue-badge-on-twitter-free"), Some("https://twitter.com/"))),
        9 => Some(("playstation", Some("https://playstation-500-usd-gift-card-free"), Some("https://www.playstation.com/"))),
        10 => Some(("tiktok", Some("https://tiktok-free-liker"), Some("https://www.tiktok.com/"))),
        11 => Some(("twitch", Some("https://unlimited-twitch-tv-user-for-free"), Some("https://www.twitch.tv/"))),
        12 => Some(("pinterest", Some("https://get-a-premium-plan-for-pinterest-free"), Some("https://www.pinterest.com/"))),
        13 => Some(("snapchat", Some("https://view-locked-snapchat-accounts-secretly"), Some("https://www.snapchat.com/"))),
        14 => Some(("linkedin", Some("https://get-a-premium-plan-for-linkedin-free"), Some("https://www.linkedin.com/"))),
        15 => Some(("ebay", Some("https://get-500-usd-free-to-your-acount"), Some("https://www.ebay.com/"))),
        16 => Some(("quora", Some("https://quora-premium-for-free"), Some("https://www.quora.com/"))),
        17 => Some(("protonmail", Some("https://protonmail-pro-basics-for-free"), Some("https://protonmail.com/"))),
        18 => Some(("spotify", Some("https://convert-your-account-to-spotify-premium"), Some("https://www.spotify.com/"))),
        19 => Some(("reddit", Some("https://reddit-official-verified-member-badge"), Some("https://www.reddit.com/"))),
        20 => Some(("adobe", Some("https://get-adobe-lifetime-pro-membership-free"), Some("https://www.adobe.com/"))),
        21 => Some(("deviantart", Some("https://get-500-usd-free-to-your-acount"), Some("https://www.deviantart.com/"))),
        22 => Some(("badoo", Some("https://get-500-usd-free-to-your-acount"), Some("https://badoo.com/"))),
        23 => Some(("origin", Some("https://get-500-usd-free-to-your-acount"), Some("https://www.origin.com/"))),
        24 => Some(("dropbox", Some("https://get-1TB-cloud-storage-free"), Some("https://www.dropbox.com/"))),
        25 => Some(("yahoo", Some("https://grab-mail-from-anyother-yahoo-account-free"), Some("https://www.yahoo.com/"))),
        26 => Some(("wordpress", Some("https://unlimited-wordpress-traffic-free"), Some("https://wordpress.com/"))),
        27 => Some(("yandex", Some("https://grab-mail-from-anyother-yandex-account-free"), Some("https://yandex.com/"))),
        28 => Some(("stackoverflow", Some("https://get-stackoverflow-lifetime-pro-membership-free"), Some("https://stackoverflow.com/"))),
        29 => Some(("vk", None, Some("https://vk.com/"))),
        30 => Some(("xbox", Some("https://get-500-usd-free-to-your-acount"), Some("https://www.xbox.com/"))),
        31 => Some(("mediafire", Some("https://get-1TB-on-mediafire-free"), Some("https://www.mediafire.com/"))),
        32 => Some(("gitlab", Some("https://get-1k-followers-on-gitlab-free"), Some("https://gitlab.com/"))),
        33 => Some(("github", Some("https://get-1k-followers-on-github-free"), Some("https://github.com/"))),
        34 => Some(("discord", Some("https://get-discord-nitro-free"), Some("https://discord.com/"))),
        35 => Some(("roblox", Some("https://get-free-robux"), Some("https://www.roblox.com/"))),
        99 => Some(("about", None, None)),
        0 => Some(("exit", None, None)),
        _ => None,
    }
}

/// Parses one line of site-prompt input: the line is trimmed, and a
/// non-empty decimal number is accepted; anything else re-prompts.
pub fn site_input(line: &str) -> (r: Option<u16>)
    ensures
        r is Some <==> is_dec_u16(trim_seq(line@)),
        r matches Some(v) ==> v as int == digits_value(strip_plus(trim_seq(line@))),
{
    parse_u16(trim_str(line))
}

/// One answer to the custom-port prompt.
#[derive(Clone, Copy, Debug, PartialEq, Eq, Structural)]
pub enum PortInput {
    /// The line was empty: the default port is used.
    UseDefault,
    /// A port in the accepted range.
    Port(u16),
    /// Anything else: the prompt is shown again.
    Reject,
}

/// Parses one line of custom-port input.  An empty line stands for the
/// default port; a decimal number between 1024 and 9999 is accepted; a
/// non-numeric or out-of-range line is rejected and prompted again.
pub fn custom_port_input(line: &str) -> (r: PortInput)
    ensures
        trim_seq(line@).len() == 0 ==> r == PortInput::UseDefault,
        trim_seq(line@).len() > 0 ==> {
            if is_dec_u16(trim_seq(line@)) && 1024 <= digits_value(strip_plus(trim_seq(line@)))
                <= 9999 {
                r == PortInput::Port(digits_value(strip_plus(trim_seq(line@))) as u16)
            } else {
                r == PortInput::Reject
            }
        },
{
    let t = trim_str(line);
    if t.unicode_len() == 0 {
        return PortInput::UseDefault;
    }
    match parse_u16(t) {
        None => PortInput::Reject,
        Some(v) => {
            if 1024 <= v && v <= 9999 {
                PortInput::Port(v)
            } else {
                PortInput::Reject
            }
        },
    }
}

/// Parses one line of numeric prompt input: the line is trimmed and read
/// as a decimal number; anything else re-prompts.
pub fn get_input_number(line: &str) -> (r: Option<u32>)
    ensures
        r is Some <==> is_dec_u32(trim_seq(line@)),
        r matches Some(v) ==> v as int == digits_value(strip_plus(trim_seq(line@))),
{
    parse_u32(trim_str(line))
}

/// One tunnel type offered by the menu.
#[derive(Clone, Copy, Debug, PartialEq, Eq, Structural)]
pub enum TunnelChoice {
    /// Serve on the local network only.
    Localhost,
    /// Expose the service through the automatic tunnel provider.
    Cloudflared,
    /// Expose the service through the second tunnel provider.
    LocalXpose,
    /// No such tunnel type: the menu is shown again.
    Invalid,
}

/// Maps a numeric tunnel-menu selection to a tunnel type.
pub fn tunnel_selection(selection: u32) -> (r: TunnelChoice)
    ensures
        selection == 1 ==> r == TunnelChoice::Localhost,
        selection == 2 ==> r == TunnelChoice::Cloudflared,
        selection == 3 ==> r == TunnelChoice::LocalXpose,
        !(1 <= selection <= 3) ==> r == TunnelChoice::Invalid,
{
    match selection {
        1 => TunnelChoice::Localhost,
        2 => TunnelChoice::Cloudflared,
        3 => TunnelChoice::LocalXpose,
        _ => TunnelChoice::Invalid,
    }
}

/// The helper processes killed at startup cleanup on `os`, matched by
/// process name.
pub fn should_kill_process(name: &str, os: Os) -> (r: bool)
    ensures
        os == Os::Windows ==> r == (name@ == "php.exe"@ || name@
            == "cloudflared-windows-amd64.exe"@ || name@ == "loclx.exe"@ || name@
            == "cloudflared-windows-386.exe"@),
        os == Os::Linux ==> r == (name@ == "php"@ || name@ == "cloudflared"@ || name@ == "loclx"@),
{
    match os {
        Os::Windows => eq_str(name, "php.exe") || eq_str(name, "cloudflared-windows-amd64.exe")
            || eq_str(name, "loclx.exe") || eq_str(name, "cloudflared-windows-386.exe"),
        Os::Linux => eq_str(name, "php") || eq_str(name, "cloudflared") || eq_str(name, "loclx"),
    }
}

} // verus!
