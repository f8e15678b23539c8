//! Why a command on a profile fails.

use vstd::prelude::*;

verus! {

/// A failure that ends a command.
#[derive(Debug, PartialEq, Eq)]
pub enum ProfileError {
    /// The rule of this name is already in the profile, and overwriting was
    /// not asked for.
    Duplicate(String),
    /// The profile has no rule of this name.
    NotFound(String),
    /// The profile of this name has no rules.
    Empty(String),
    /// What is stored for the profile of this name cannot be decoded.
    Decode(String),
    /// The profile of this name cannot be encoded.
    Encode(String),
    /// The profile of this name cannot be written.
    Write(String),
    /// A path begins with `~` and the home directory is not known.
    Expand,
}

/// A [`ProfileError`] as a mathematical value.
pub enum ProfileErrorView {
    Duplicate(Seq<char>),
    NotFound(Seq<char>),
    Empty(Seq<char>),
    Decode(Seq<char>),
    Encode(Seq<char>),
    Write(Seq<char>),
    Expand,
}

impl View for ProfileError {
    type V = ProfileErrorView;

    open spec fn view(&self) -> ProfileErrorView {
        match self {
            ProfileError::Duplicate(rule) => ProfileErrorView::Duplicate(rule@),
            ProfileError::NotFound(rule) => ProfileErrorView::NotFound(rule@),
            ProfileError::Empty(profile) => ProfileErrorView::Empty(profile@),
            ProfileError::Decode(profile) => ProfileErrorView::Decode(profile@),
            ProfileError::Encode(profile) => ProfileErrorView::Encode(profile@),
            ProfileError::Write(profile) => ProfileErrorView::Write(profile@),
            ProfileError::Expand => ProfileErrorView::Expand,
        }
    }
}

impl ProfileErrorView {
    /// The line that tells the operator of the failure.
    pub open spec fn message(self) -> Seq<char> {
        match self {
            ProfileErrorView::Duplicate(rule) => "Rule ["@ + rule
                + "]: Duplicate (use -f to overwrite)"@,
            ProfileErrorView::NotFound(rule) => "Rule ["@ + rule + "]: Not found"@,
            ProfileErrorView::Empty(profile) => "Profile ["@ + profile + "]: Empty profile"@,
            ProfileErrorView::Decode(profile) => "Profile ["@ + profile + "]: Failed to decode"@,
            ProfileErrorView::Encode(profile) => "Profile ["@ + profile + "]: Failed to encode"@,
            ProfileErrorView::Write(profile) => "Profile ["@ + profile + "]: Failed to write"@,
            ProfileErrorView::Expand => "Error: Failed to expand ~ to home path"@,
        }
    }
}

impl ProfileError {
    /// The line that tells the operator of the failure.
    pub fn to_string(&self) -> (text: String)
        ensures
            text@ == self@.message(),
    {
        match self {
            ProfileError::Duplicate(rule) => String::from_str("Rule [").concat(
                rule.as_str(),
            ).concat("]: Duplicate (use -f to overwrite)"),
            ProfileError::NotFound(rule) => String::from_str("Rule [").concat(
                rule.as_str(),
            ).concat("]: Not found"),
            ProfileError::Empty(profile) => String::from_str("Profile [").concat(
                profile.as_str(),
            ).concat("]: Empty profile"),
            ProfileError::Decode(profile) => String::from_str("Profile [").concat(
                profile.as_str(),
            ).concat("]: Failed to decode"),
            ProfileError::Encode(profile) => String::from_str("Profile [").concat(
                profile.as_str(),
            ).concat("]: Failed to encode"),
            ProfileError::Write(profile) => String::from_str("Profile [").concat(
                profile.as_str(),
            ).concat("]: Failed to write"),
            ProfileError::Expand => String::from_str("Error: Failed to expand ~ to home path"),
        }
    }
}

} // verus!
