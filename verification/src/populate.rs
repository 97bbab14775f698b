//! What the tool that fills a running service with data says to it: the
//! bodies of its requests, the addresses it calls, and the choices it draws.

use crate::text::{decimal, decimal_string};
use vstd::prelude::*;
use vstd::string::*;

verus! {

/// The body of a request to sign in.
pub open spec fn signin_text(login: Seq<char>, passwd: Seq<char>) -> Seq<char> {
    "{ \"Login\":\""@ + login + "\", \"PassHash\":\""@ + passwd + "\"}"@
}

/// The body of a request to sign up.
pub open spec fn signup_text(
    login: Seq<char>,
    name: Seq<char>,
    email: Seq<char>,
    passhash: Seq<char>,
) -> Seq<char> {
    "{ \"Login\":\""@ + login + "\", \"Name\":\""@ + name + "\", \"Email\":\""@ + email
        + "\", \"PassHash\":\""@ + passhash + "\"}"@
}

/// The body of a request to sign in. The texts are put in as they are.
pub fn signin_body(login: &str, passwd: &str) -> (r: String)
    ensures
        r@ == signin_text(login@, passwd@),
{
    let mut r = String::from_str("{ \"Login\":\"");
    r.append(login);
    r.append("\", \"PassHash\":\"");
    r.append(passwd);
    r.append("\"}");
    r
}

/// The body of a request to sign up. The texts are put in as they are.
pub fn signup_body(login: &str, name: &str, email: &str, passhash: &str) -> (r: String)
    ensures
        r@ == signup_text(login@, name@, email@, passhash@),
{
    let mut r = String::from_str("{ \"Login\":\"");
    r.append(login);
    r.append("\", \"Name\":\"");
    r.append(name);
    r.append("\", \"Email\":\"");
    r.append(email);
    r.append("\", \"PassHash\":\"");
    r.append(passhash);
    r.append("\"}");
    r
}

/// The body of a request to add a city.
pub fn city_body(name: &str) -> (r: String)
    ensures
        r@ == "{\"Name\":\""@ + name@ + "\"}"@,
{
    let mut r = String::from_str("{\"Name\":\"");
    r.append(name);
    r.append("\"}");
    r
}

/// The address at which rooms are added to the hotel `hotel_id`.
pub fn room_url(hotel_id: i32) -> (r: String)
    ensures
        r@ == "http://localhost:8080/api/hotel/"@ + decimal(hotel_id as int) + "/room/"@,
{
    let mut r = String::from_str("http://localhost:8080/api/hotel/");
    let id = decimal_string(hotel_id as i64);
    r.append(id.as_str());
    r.append("/room/");
    r
}

/// The distance of `random` from the nearest multiple of `n` towards zero.
pub open spec fn drawn(random: i32, n: i32) -> int {
    let r = if random >= 0 {
        random as int
    } else {
        -(random as int)
    };
    r % (n as int)
}

/// A choice among `n`, from 0, drawn from a random number.
pub fn choice(random: i32, n: i32) -> (r: i32)
    requires
        n > 0,
    ensures
        r == drawn(random, n),
        0 <= r < n,
{
    let m = random % n;
    if m < 0 {
        -m
    } else {
        m
    }
}

/// The city of a hotel, from 1 to the number of cities, drawn from a
/// random number.
pub fn city_of(random: i32, cities: i32) -> (r: i32)
    requires
        cities > 0,
    ensures
        r == drawn(random, cities) + 1,
        1 <= r <= cities,
{
    choice(random, cities) + 1
}

/// The token among the cookies that an answer sets: the value of the last
/// cookie with the name `token`.
pub fn token_of(cookies: &Vec<(String, String)>) -> (r: Option<String>)
    ensures
        match r {
            Some(t) => exists|i: int|
                0 <= i < cookies.len() && cookies[i].0@ == "token"@ && cookies[i].1 == t && forall|
                    k: int,
                |
                    i < k < cookies.len() ==> (#[trigger] cookies[k]).0@ != "token"@,
            None => forall|k: int|
                0 <= k < cookies.len() ==> (#[trigger] cookies[k]).0@ != "token"@,
        },
{
    let name = String::from_str("token");
    let mut i: usize = cookies.len();
    while i > 0
        invariant
            i <= cookies.len(),
            name@ == "token"@,
            forall|k: int| i <= k < cookies.len() ==> (#[trigger] cookies[k]).0@ != "token"@,
        decreases i,
    {
        i -= 1;
        if cookies[i].0 == name {
            return Some(cookies[i].1.clone());
        }
    }
    None
}

} // verus!
