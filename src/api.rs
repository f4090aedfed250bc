use vstd::prelude::*;

verus! {

/// One prize of the day-indexed reward catalog.
#[derive(Debug, Clone)]
pub struct Award {
    pub name: String,
    pub count: usize,
    pub icon: String,
}

/// The reward catalog of the current period: position `i` is the prize of day `i + 1`.
#[derive(Debug, Clone)]
pub struct AwardList {
    pub awards: Vec<Award>,
    pub month: u8,
}

/// A calendar date as read from the provider (`YYYY-MM-DD`).
#[derive(Debug, Clone, Copy)]
pub struct Date {
    year: i32,
    month: u32,
    day: u32,
}

impl View for Date {
    type V = (i32, u32, u32);

    closed spec fn view(&self) -> (i32, u32, u32) {
        (self.year, self.month, self.day)
    }
}

impl Date {
    #[verifier::type_invariant]
    spec fn wf(self) -> bool {
        1 <= self.month <= 12 && 1 <= self.day <= 31
    }

    pub fn year(&self) -> (r: i32)
        ensures
            r == self@.0,
    {
        self.year
    }

    pub fn month(&self) -> (r: u32)
        ensures
            r == self@.1,
    {
        self.month
    }

    pub fn day(&self) -> (r: u32)
        ensures
            r == self@.2,
    {
        self.day
    }

    /// The day of the month counted from zero.
    pub closed spec fn day0_spec(self) -> nat {
        (self.day - 1) as nat
    }

    /// The day of the month counted from zero.
    pub fn day0(&self) -> (r: u32)
        ensures
            r == self@.2 - 1,
            r == self.day0_spec(),
    {
        proof {
            use_type_invariant(self);
        }
        self.day - 1
    }
}

/// What `NaiveDate::parse_from_str(s, "%Y-%m-%d")` gives, as year, month and day.
pub uninterp spec fn parsed_ymd(s: Seq<char>) -> Option<(i32, u32, u32)>;

/// Relies on chrono's `NaiveDate::parse_from_str` with the format `%Y-%m-%d`,
/// and on `Datelike::{year, month, day}`, whose month lies in 1..=12 and day in 1..=31.
#[verifier::external_body]
fn parse_ymd(s: &str) -> (r: Option<(i32, u32, u32)>)
    ensures
        r == parsed_ymd(s@),
        r matches Some((y, m, d)) ==> 1 <= m <= 12 && 1 <= d <= 31,
{
    chrono::NaiveDate::parse_from_str(s, "%Y-%m-%d").ok().map(
        |d| (chrono::Datelike::year(&d), chrono::Datelike::month(&d), chrono::Datelike::day(&d)),
    )
}

/// Reads a provider date written `YYYY-MM-DD`.
pub fn parse_date(s: &str) -> (r: Option<Date>)
    ensures
        match parsed_ymd(s@) {
            Some(ymd) => r matches Some(d) && d@ == ymd,
            None => r is None,
        },
{
    match parse_ymd(s) {
        Some((year, month, day)) => Some(Date { year, month, day }),
        None => None,
    }
}

/// The user's check-in status for the current period.
#[derive(Debug, Clone)]
pub struct SigninInfo {
    pub first_bind: bool,
    pub is_sign: bool,
    pub today: Date,
    pub total_sign_day: usize,
}

/// The provider's confirmation of a submitted check-in.
#[derive(Debug, Clone)]
pub struct SigninResult {
    pub code: String,
}

/// One entry of a game's tool list.
#[derive(Debug, Clone)]
pub struct HoyolabGameTool {
    pub id: i32,
    pub name: String,
    pub web_path: String,
}

/// One game of the community's tool catalog.
#[derive(Debug, Clone)]
pub struct HoyolabGame {
    pub game_id: i32,
    pub game_name: String,
    pub tools: Vec<HoyolabGameTool>,
}

/// The community's tool catalog.
#[derive(Debug, Clone)]
pub struct HoyolabGameList {
    pub games: Vec<HoyolabGame>,
}

/// The uniform envelope of every response: `retcode == 0` means `data` is the payload.
#[derive(Debug, Clone)]
pub struct ApiResponse<T> {
    pub retcode: i32,
    pub message: String,
    pub data: Option<T>,
}

/// Why an envelope carried no usable payload.
#[derive(Debug, Clone)]
pub enum ApiResponseError {
    /// The provider reported success but sent no payload.
    Malformed,
    /// The provider reported a failure, with its message.
    Provider(String),
}

impl<T> ApiResponse<T> {
    /// What decoding the envelope yields.
    pub open spec fn extract_spec(self) -> Result<T, ApiResponseError> {
        if self.retcode == 0 {
            match self.data {
                Some(d) => Ok(d),
                None => Err(ApiResponseError::Malformed),
            }
        } else {
            Err(ApiResponseError::Provider(self.message))
        }
    }

    /// Unwraps the payload, or says why there is none.
    pub fn extract(self) -> (r: Result<T, ApiResponseError>)
        ensures
            r == self.extract_spec(),
            self.retcode == 0 && self.data is Some ==> r == Ok::<T, ApiResponseError>(self.data->0),
            self.retcode != 0 ==> r == Err::<T, ApiResponseError>(ApiResponseError::Provider(self.message)),
    {
        if self.retcode == 0 {
            match self.data {
                Some(d) => Ok(d),
                None => Err(ApiResponseError::Malformed),
            }
        } else {
            Err(ApiResponseError::Provider(self.message))
        }
    }
}

} // verus!
