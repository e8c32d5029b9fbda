//! The version of nginx, read from what `nginx -v` prints.

use vstd::prelude::*;
use crate::decimal::{decimal_text, parse_u8, parse_u8_spec, write_u8};
use crate::gateway::{CommandOutput, Invocation, LaunchFailure};

verus! {

/// A version of nginx.
#[derive(Clone, Copy, Debug, PartialEq, Eq, Structural)]
pub struct NginxVersion {
    pub major: u8,
    pub minor: u8,
    pub patch: u8,
}

impl NginxVersion {
    /// The version as it is written: the three numbers with a dot between them.
    pub open spec fn text(self) -> Seq<char> {
        decimal_text(self.major as nat) + "."@ + decimal_text(self.minor as nat) + "."@
            + decimal_text(self.patch as nat)
    }

    /// Writes the version: the three numbers with a dot between them.
    pub fn to_text(&self) -> (text: String)
        ensures
            text@ == self.text(),
    {
        let mut text = write_u8(self.major);
        text.append(".");
        text.append(write_u8(self.minor).as_str());
        text.append(".");
        text.append(write_u8(self.patch).as_str());
        text
    }
}

/// `regex::Error`, the reason why a pattern did not compile. Nothing is
/// known of what it holds.
#[verifier::external_type_specification]
#[verifier::external_body]
pub struct ExRegexError(regex::Error);

/// Whether `regex::Regex::new` accepts a pattern.
pub uninterp spec fn pattern_compiles(pattern: Seq<char>) -> bool;

/// What `regex::Regex::captures` finds in a text for a pattern that compiles:
/// none where the pattern matches nowhere, else the groups of the leftmost
/// match, the whole match first, each with its text where it took part.
pub uninterp spec fn first_captures(pattern: Seq<char>, text: Seq<char>) -> Option<
    Seq<Option<Seq<char>>>,
>;

/// The pattern of a version: three runs of digits with a dot between them.
pub open spec fn version_pattern() -> Seq<char> {
    "(\\d+)\\.(\\d+)\\.(\\d+)"@
}

/// The texts of a match's groups.
pub open spec fn group_texts(groups: Option<Vec<Option<String>>>) -> Option<
    Seq<Option<Seq<char>>>,
> {
    match groups {
        Some(list) => Some(
            Seq::new(
                list@.len(),
                |i: int|
                    match list@[i] {
                        Some(text) => Some(text@),
                        None => None,
                    },
            ),
        ),
        None => None,
    }
}

/// The number below 256 that group `i` of a match holds, if there is such a
/// group, it took part in the match, and its text is such a number.
pub open spec fn group_number(groups: Seq<Option<Seq<char>>>, i: int) -> Option<u8> {
    if 0 <= i < groups.len() {
        match groups[i] {
            Some(text) => parse_u8_spec(text),
            None => None,
        }
    } else {
        None
    }
}

/// The version that a search for the version pattern gives: the numbers of
/// the first three groups after the whole match, if all three are numbers
/// below 256.
pub open spec fn version_of_groups(groups: Option<Seq<Option<Seq<char>>>>) -> Option<
    NginxVersion,
> {
    match groups {
        Some(list) => match (group_number(list, 1), group_number(list, 2), group_number(list, 3)) {
            (Some(major), Some(minor), Some(patch)) => Some(NginxVersion { major, minor, patch }),
            _ => None,
        },
        None => None,
    }
}

/// The version told by the outcome of `nginx -v`: none where nginx never
/// started or did not succeed, else what the first match of the version
/// pattern in the error stream gives.
pub open spec fn version_of(outcome: Result<CommandOutput, LaunchFailure>) -> Option<
    NginxVersion,
> {
    match outcome {
        Ok(output) => if output.success && pattern_compiles(version_pattern()) {
            version_of_groups(first_captures(version_pattern(), output.stderr@))
        } else {
            None
        },
        Err(_) => None,
    }
}

/// `regex::Regex::new` on the pattern, then `regex::Regex::captures` on the
/// text. The result is an error exactly when the pattern does not compile;
/// otherwise it holds the groups of the leftmost match, each as an owned
/// text, or none where nothing matches.
#[verifier::external_body]
fn captures(pattern: &str, text: &str) -> (found: Result<Option<Vec<Option<String>>>, regex::Error>)
    ensures
        found.is_ok() == pattern_compiles(pattern@),
        found.is_ok() ==> group_texts(found.unwrap()) == first_captures(pattern@, text@),
{
    let re = regex::Regex::new(pattern)?;
    Ok(re.captures(text).map(|caps| caps.iter().map(|g| g.map(|m| m.as_str().to_string())).collect()))
}

/// How the version is asked for: `nginx -v`.
pub fn version_invocation() -> (inv: Invocation)
    ensures
        inv.program_text() == "nginx"@,
        inv.arg_texts() == seq!["-v"@],
{
    Invocation::with_one_arg("nginx", "-v")
}

/// The number below 256 that group `i` of a match holds.
fn number_of_group(groups: &Vec<Option<String>>, i: usize) -> (number: Option<u8>)
    ensures
        number == group_number(group_texts(Some(*groups)).unwrap(), i as int),
{
    if i < groups.len() {
        match &groups[i] {
            Some(text) => parse_u8(text.as_str()),
            None => None,
        }
    } else {
        None
    }
}

/// The version that a search for the version pattern gives.
pub fn version_from_captures(groups: &Option<Vec<Option<String>>>) -> (version: Option<
    NginxVersion,
>)
    ensures
        version == version_of_groups(group_texts(*groups)),
{
    match groups {
        Some(list) => {
            let major = number_of_group(list, 1);
            let minor = number_of_group(list, 2);
            let patch = number_of_group(list, 3);
            match (major, minor, patch) {
                (Some(major), Some(minor), Some(patch)) => Some(
                    NginxVersion { major, minor, patch },
                ),
                _ => None,
            }
        },
        None => None,
    }
}

/// The version told by the outcome of `nginx -v`.
pub fn get_nginx_version(outcome: &Result<CommandOutput, LaunchFailure>) -> (version: Option<
    NginxVersion,
>)
    ensures
        version == version_of(*outcome),
{
    match outcome {
        Ok(output) => {
            if !output.success {
                return None;
            }
            match captures("(\\d+)\\.(\\d+)\\.(\\d+)", output.stderr.as_str()) {
                Ok(groups) => version_from_captures(&groups),
                Err(_) => None,
            }
        },
        Err(_) => None,
    }
}

} // verus!
