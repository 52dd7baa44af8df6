//! Endpoints and header values of the identity services.

use vstd::prelude::*;
use vstd::string::StringExecFns;

verus! {

/// The character for a decimal digit.
pub open spec fn digit_char(d: nat) -> char {
    if d == 0 {
        '0'
    } else if d == 1 {
        '1'
    } else if d == 2 {
        '2'
    } else if d == 3 {
        '3'
    } else if d == 4 {
        '4'
    } else if d == 5 {
        '5'
    } else if d == 6 {
        '6'
    } else if d == 7 {
        '7'
    } else if d == 8 {
        '8'
    } else {
        '9'
    }
}

/// The decimal notation of `n`, without sign or leading zeros.
pub open spec fn decimal(n: nat) -> Seq<char>
    decreases n,
{
    if n < 10 {
        seq![digit_char(n)]
    } else {
        decimal(n / 10) + seq![digit_char(n % 10)]
    }
}

/// Endpoint of the mapping service for a user in a guild.
pub open spec fn rover_endpoint(guild_id: u64, discord_id: u64) -> Seq<char> {
    "https://registry.rover.link/api/guilds/"@ + decimal(guild_id as nat) + "/discord-to-roblox/"@
        + decimal(discord_id as nat)
}

/// Endpoint of the profile service for an account id.
pub open spec fn roblox_endpoint(roblox_id: u64) -> Seq<char> {
    "https://users.roblox.com/v1/users/"@ + decimal(roblox_id as nat)
}

/// Endpoint of the reputation service for an account name.
pub open spec fn devforum_endpoint(roblox_username: Seq<char>) -> Seq<char> {
    "https://devforum.roblox.com/u/"@ + roblox_username + ".json"@
}

/// Value of the authorization header that carries a bearer secret.
pub open spec fn bearer_header(secret: Seq<char>) -> Seq<char> {
    "Bearer "@ + secret
}

/// Value of the cookie header that carries a session secret.
pub open spec fn session_cookie(secret: Seq<char>) -> Seq<char> {
    "_t="@ + secret
}

fn digit_str(d: u64) -> (r: &'static str)
    requires
        d < 10,
    ensures
        r@ == seq![digit_char(d as nat)],
{
    proof {
        reveal_strlit("0");
        reveal_strlit("1");
        reveal_strlit("2");
        reveal_strlit("3");
        reveal_strlit("4");
        reveal_strlit("5");
        reveal_strlit("6");
        reveal_strlit("7");
        reveal_strlit("8");
        reveal_strlit("9");
    }
    match d {
        0 => "0",
        1 => "1",
        2 => "2",
        3 => "3",
        4 => "4",
        5 => "5",
        6 => "6",
        7 => "7",
        8 => "8",
        _ => "9",
    }
}

/// Renders `n` in decimal.
pub fn to_decimal(n: u64) -> (r: String)
    ensures
        r@ == decimal(n as nat),
    decreases n,
{
    if n < 10 {
        String::from_str(digit_str(n))
    } else {
        let mut s = to_decimal(n / 10);
        s.append(digit_str(n % 10));
        s
    }
}

/// Builds the mapping service's endpoint for a user in a guild.
pub fn construct_rover_endpoint(guild_id: u64, discord_id: u64) -> (r: String)
    ensures
        r@ == rover_endpoint(guild_id, discord_id),
{
    let mut s = String::from_str("https://registry.rover.link/api/guilds/");
    let g = to_decimal(guild_id);
    s.append(g.as_str());
    s.append("/discord-to-roblox/");
    let d = to_decimal(discord_id);
    s.append(d.as_str());
    s
}

/// Builds the profile service's endpoint for an account id.
pub fn construct_roblox_endpoint(roblox_id: u64) -> (r: String)
    ensures
        r@ == roblox_endpoint(roblox_id),
{
    let mut s = String::from_str("https://users.roblox.com/v1/users/");
    let id = to_decimal(roblox_id);
    s.append(id.as_str());
    s
}

/// Builds the reputation service's endpoint for an account name.
pub fn construct_devforum_endpoint(roblox_username: &str) -> (r: String)
    ensures
        r@ == devforum_endpoint(roblox_username@),
{
    let mut s = String::from_str("https://devforum.roblox.com/u/");
    s.append(roblox_username);
    s.append(".json");
    s
}

/// Builds the authorization header value for a bearer secret.
pub fn bearer(secret: &str) -> (r: String)
    ensures
        r@ == bearer_header(secret@),
{
    let mut s = String::from_str("Bearer ");
    s.append(secret);
    s
}

/// Builds the cookie header value for a session secret.
pub fn cookie(secret: &str) -> (r: String)
    ensures
        r@ == session_cookie(secret@),
{
    let mut s = String::from_str("_t=");
    s.append(secret);
    s
}

} // verus!
