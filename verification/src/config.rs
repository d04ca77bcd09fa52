//! Configuration validation.
//!
//! `create` accepts a raw configuration of plain values and parses each field
//! into its domain form before any service is built. A field that fails its
//! rule yields a [`ConfigError`] naming that field; the first offending field
//! in declaration order wins.

use vstd::prelude::*;

use crate::errors::{ConfigError, ConfigField};

verus! {

/// A character allowed in a structured identifier: an ASCII lower-case
/// letter, a digit, or a hyphen.
pub open spec fn is_name_char(c: char) -> bool {
    ('a' <= c && c <= 'z') || ('0' <= c && c <= '9') || c == '-'
}

/// A character allowed in an access-key identifier: an ASCII letter or digit.
pub open spec fn is_key_char(c: char) -> bool {
    ('a' <= c && c <= 'z') || ('A' <= c && c <= 'Z') || ('0' <= c && c <= '9')
}

/// A character allowed in a label value: printable ASCII.
pub open spec fn is_value_char(c: char) -> bool {
    ' ' <= c && c <= '~'
}

/// A structured identifier (account, project or label name): between 1 and 63
/// name characters, with no hyphen at either end.
pub open spec fn valid_name(s: Seq<char>) -> bool {
    &&& 1 <= s.len() <= 63
    &&& (forall|i: int| 0 <= i < s.len() ==> is_name_char(#[trigger] s[i]))
    &&& s[0] != '-'
    &&& s[s.len() - 1] != '-'
}

/// An access-key identifier: between 1 and 64 key characters.
pub open spec fn valid_access_key(s: Seq<char>) -> bool {
    &&& 1 <= s.len() <= 64
    &&& (forall|i: int| 0 <= i < s.len() ==> is_key_char(#[trigger] s[i]))
}

/// A label value: between 1 and 255 printable ASCII characters.
pub open spec fn valid_label_value(s: Seq<char>) -> bool {
    &&& 1 <= s.len() <= 255
    &&& (forall|i: int| 0 <= i < s.len() ==> is_value_char(#[trigger] s[i]))
}

/// Decides [`valid_name`].
pub fn check_name(s: &str) -> (r: bool)
    ensures
        r == valid_name(s@),
{
    let n = s.unicode_len();
    if n == 0 || n > 63 {
        return false;
    }
    if s.get_char(0) == '-' || s.get_char(n - 1) == '-' {
        return false;
    }
    let mut i: usize = 0;
    while i < n
        invariant
            n == s@.len(),
            1 <= n <= 63,
            i <= n,
            forall|j: int| 0 <= j < i ==> is_name_char(#[trigger] s@[j]),
        decreases n - i,
    {
        let c = s.get_char(i);
        if !(('a' <= c && c <= 'z') || ('0' <= c && c <= '9') || c == '-') {
            return false;
        }
        i = i + 1;
    }
    true
}

/// Decides [`valid_access_key`].
pub fn check_access_key(s: &str) -> (r: bool)
    ensures
        r == valid_access_key(s@),
{
    let n = s.unicode_len();
    if n == 0 || n > 64 {
        return false;
    }
    let mut i: usize = 0;
    while i < n
        invariant
            n == s@.len(),
            1 <= n <= 64,
            i <= n,
            forall|j: int| 0 <= j < i ==> is_key_char(#[trigger] s@[j]),
        decreases n - i,
    {
        let c = s.get_char(i);
        if !(('a' <= c && c <= 'z') || ('A' <= c && c <= 'Z') || ('0' <= c && c <= '9')) {
            return false;
        }
        i = i + 1;
    }
    true
}

/// Decides [`valid_label_value`].
pub fn check_label_value(s: &str) -> (r: bool)
    ensures
        r == valid_label_value(s@),
{
    let n = s.unicode_len();
    if n == 0 || n > 255 {
        return false;
    }
    let mut i: usize = 0;
    while i < n
        invariant
            n == s@.len(),
            1 <= n <= 255,
            i <= n,
            forall|j: int| 0 <= j < i ==> is_value_char(#[trigger] s@[j]),
        decreases n - i,
    {
        let c = s.get_char(i);
        if !(' ' <= c && c <= '~') {
            return false;
        }
        i = i + 1;
    }
    true
}

/// Configuration as the host hands it over: plain values, nothing parsed yet.
pub struct RawConfig {
    pub account: String,
    pub project: String,
    pub access_key_id: String,
    pub secret_access_key: String,
    pub config_path: Option<String>,
    /// Absent means the default, which is to watch the configuration file.
    pub watch_config: Option<bool>,
    pub labels: Vec<(String, String)>,
    /// Additional connection parameters, such as the host wrapper's identity;
    /// passed through to the service builder unchecked.
    pub extra_params: Vec<(String, String)>,
}

/// A validated configuration, ready to hand to the service builder.
#[derive(Debug)]
pub struct Config {
    pub account: String,
    pub project: String,
    pub access_key_id: String,
    pub secret_access_key: String,
    pub config_path: Option<String>,
    pub watch_config: bool,
    pub labels: Vec<(String, String)>,
    pub extra_params: Vec<(String, String)>,
}

impl Config {
    /// Every parsed field satisfies its domain rule.
    pub open spec fn wf(self) -> bool {
        &&& valid_name(self.account@)
        &&& valid_name(self.project@)
        &&& valid_access_key(self.access_key_id@)
        &&& (forall|i: int|
            0 <= i < self.labels@.len() ==> valid_name(#[trigger] self.labels@[i].0@)
                && valid_label_value(self.labels@[i].1@))
    }
}

/// The field named by the first offending label pair, if any: within a pair
/// the name is checked before the value.
pub open spec fn label_verdict(labels: Seq<(String, String)>) -> Option<ConfigField>
    decreases labels.len(),
{
    if labels.len() == 0 {
        None
    } else if !valid_name(labels[0].0@) {
        Some(ConfigField::LabelName)
    } else if !valid_label_value(labels[0].1@) {
        Some(ConfigField::LabelValue)
    } else {
        label_verdict(labels.drop_first())
    }
}

/// The first field of `raw` that fails its domain rule, in declaration order;
/// `None` when the whole configuration is valid.
pub open spec fn config_verdict(raw: RawConfig) -> Option<ConfigField> {
    if !valid_name(raw.account@) {
        Some(ConfigField::Account)
    } else if !valid_name(raw.project@) {
        Some(ConfigField::Project)
    } else if !valid_access_key(raw.access_key_id@) {
        Some(ConfigField::AccessKeyId)
    } else {
        label_verdict(raw.labels@)
    }
}

/// Parses a raw configuration into its domain form.
///
/// Succeeds exactly when every field satisfies its rule; otherwise reports
/// the first offending field. The secret access key and the optional
/// configuration-file path are carried over as given, and an absent
/// watch-config flag defaults to watching.
#[verifier::loop_isolation(false)]
pub fn parse_config(raw: RawConfig) -> (r: Result<Config, ConfigError>)
    ensures
        r is Ok <==> config_verdict(raw) is None,
        r matches Err(e) ==> config_verdict(raw) == Some(e.field),
        r matches Ok(c) ==> {
            &&& c.wf()
            &&& c.account == raw.account
            &&& c.project == raw.project
            &&& c.access_key_id == raw.access_key_id
            &&& c.secret_access_key == raw.secret_access_key
            &&& c.config_path == raw.config_path
            &&& c.watch_config == (match raw.watch_config {
                Some(b) => b,
                None => true,
            })
            &&& c.labels == raw.labels
            &&& c.extra_params == raw.extra_params
        },
{
    if !check_name(raw.account.as_str()) {
        return Err(ConfigError { field: ConfigField::Account });
    }
    if !check_name(raw.project.as_str()) {
        return Err(ConfigError { field: ConfigField::Project });
    }
    if !check_access_key(raw.access_key_id.as_str()) {
        return Err(ConfigError { field: ConfigField::AccessKeyId });
    }
    let n = raw.labels.len();
    proof {
        assert(raw.labels@.skip(0) =~= raw.labels@);
    }
    let mut i: usize = 0;
    while i < n
        invariant
            n == raw.labels@.len(),
            i <= n,
            label_verdict(raw.labels@) == label_verdict(raw.labels@.skip(i as int)),
            forall|j: int|
                0 <= j < i ==> valid_name(#[trigger] raw.labels@[j].0@) && valid_label_value(
                    raw.labels@[j].1@,
                ),
        decreases n - i,
    {
        let pair = &raw.labels[i];
        proof {
            assert(raw.labels@.skip(i as int)[0] == raw.labels@[i as int]);
            assert(raw.labels@.skip(i as int).drop_first() =~= raw.labels@.skip(i as int + 1));
        }
        if !check_name(pair.0.as_str()) {
            return Err(ConfigError { field: ConfigField::LabelName });
        }
        if !check_label_value(pair.1.as_str()) {
            return Err(ConfigError { field: ConfigField::LabelValue });
        }
        i = i + 1;
    }
    proof {
        assert(raw.labels@.skip(n as int) =~= Seq::<(String, String)>::empty());
    }
    let watch_config = match raw.watch_config {
        Some(b) => b,
        None => true,
    };
    Ok(
        Config {
            account: raw.account,
            project: raw.project,
            access_key_id: raw.access_key_id,
            secret_access_key: raw.secret_access_key,
            config_path: raw.config_path,
            watch_config,
            labels: raw.labels,
            extra_params: raw.extra_params,
        },
    )
}

} // verus!
