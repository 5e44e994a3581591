//! The volume record and the option validator.
//!
//! A [`XetVolume`] describes one named volume's configuration: the repository
//! and revision to mount, optional credentials, the write/watch flags and the
//! mount path. Options arrive as string key/value pairs; keys are matched
//! case-insensitively, and a final consistency pass rejects incomplete or
//! contradictory records.

use vstd::prelude::*;
use vstd::string::StringExecFns;

use crate::errors::{ErrModel, VolumeError};
use crate::textops::{
    duration_parses, is_plain_interval, lower_of, parses_as_duration, plain_interval,
    to_lowercase,
};

verus! {

/// Mathematical model of a [`XetVolume`]: the same fields over character
/// sequences.
#[verifier::ext_equal]
pub struct VolumeModel {
    pub repo: Seq<char>,
    pub commit: Seq<char>,
    pub username: Seq<char>,
    pub pat: Seq<char>,
    pub writeable: bool,
    pub watch: Option<Seq<char>>,
    pub mount_path: Seq<char>,
}

/// One named volume's configuration and its mount path.
#[derive(Debug)]
pub struct XetVolume {
    /// Source repository identifier; required.
    pub repo: String,
    /// Revision or reference to mount; required.
    pub commit: String,
    /// Optional credential identity.
    pub username: String,
    /// Optional credential secret.
    pub pat: String,
    /// Mount read-write if true; defaults to false.
    pub writeable: bool,
    /// Filesystem path where this volume is or will be mounted.
    pub mount_path: String,
    /// Poll interval for upstream changes; mutually exclusive with
    /// `writeable`.
    pub watch: Option<String>,
}

impl View for XetVolume {
    type V = VolumeModel;

    open spec fn view(&self) -> VolumeModel {
        VolumeModel {
            repo: self.repo@,
            commit: self.commit@,
            username: self.username@,
            pat: self.pat@,
            writeable: self.writeable,
            watch: match self.watch {
                Some(w) => Some(w@),
                None => None,
            },
            mount_path: self.mount_path@,
        }
    }
}

/// The model of a freshly defaulted volume: every text field empty,
/// read-only, no watch interval.
pub open spec fn empty_volume() -> VolumeModel {
    VolumeModel {
        repo: Seq::empty(),
        commit: Seq::empty(),
        username: Seq::empty(),
        pat: Seq::empty(),
        writeable: false,
        watch: None,
        mount_path: Seq::empty(),
    }
}

impl Default for XetVolume {
    /// A blank volume record, ready for options to be applied.
    fn default() -> (r: Self)
        ensures
            r@ == empty_volume(),
    {
        XetVolume {
            repo: String::new(),
            commit: String::new(),
            username: String::new(),
            pat: String::new(),
            writeable: false,
            mount_path: String::new(),
            watch: None,
        }
    }
}

/// The effect of one option on a volume model: `None` means the key is
/// outside the recognized set. Keys are matched on their lower-cased form;
/// `write` holds exactly when its value lower-cases to `true`; a `watch`
/// interval is stored lower-cased.
pub open spec fn apply_option(m: VolumeModel, key: Seq<char>, value: Seq<char>) -> Option<
    VolumeModel,
> {
    let k = lower_of(key);
    if k == "repo"@ {
        Some(VolumeModel { repo: value, ..m })
    } else if k == "commit"@ {
        Some(VolumeModel { commit: value, ..m })
    } else if k == "username"@ {
        Some(VolumeModel { username: value, ..m })
    } else if k == "pat"@ {
        Some(VolumeModel { pat: value, ..m })
    } else if k == "write"@ {
        Some(VolumeModel { writeable: lower_of(value) == "true"@, ..m })
    } else if k == "watch"@ {
        Some(VolumeModel { watch: Some(lower_of(value)), ..m })
    } else {
        None
    }
}

/// The consistency error of a fully applied volume model, if any: `repo` and
/// `commit` must be set, `write` and `watch` are incompatible, and a watch
/// interval must be a plain interval that parses as a duration. An interval
/// outside [`plain_interval`] is rejected as invalid rather than handed to
/// the parser, whose final carry can abort on such spellings.
pub open spec fn validation_error(m: VolumeModel) -> Option<ErrModel> {
    if m.repo.len() == 0 {
        Some(ErrModel::InvalidOptions("\"repo\" option not set"@))
    } else if m.commit.len() == 0 {
        Some(ErrModel::InvalidOptions("\"commit\" option not set"@))
    } else {
        match m.watch {
            Some(interval) => if m.writeable {
                Some(ErrModel::InvalidOptions("Writable and watch are incompatible options"@))
            } else if !(plain_interval(interval) && duration_parses(interval)) {
                Some(
                    ErrModel::InvalidOptions(
                        "interval provided for watch: "@ + interval + " is invalid"@,
                    ),
                )
            } else {
                None
            },
            None => None,
        }
    }
}

impl XetVolume {
    /// Apply one `(key, value)` option to this record. Fails, and leaves the
    /// record unchanged, exactly on keys outside the recognized set.
    pub fn try_apply_option(&mut self, key: String, value: String) -> (r: Result<
        (),
        VolumeError,
    >)
        ensures
            match apply_option(old(self)@, key@, value@) {
                Some(m) => r is Ok && final(self)@ == m,
                None => (r matches Err(e) && e@ == ErrModel::NoOption(key@)) && *final(self)
                    == *old(self),
            },
    {
        let k = to_lowercase(key.as_str());
        if k == String::from_str("repo") {
            self.repo = value;
        } else if k == String::from_str("commit") {
            self.commit = value;
        } else if k == String::from_str("username") {
            self.username = value;
        } else if k == String::from_str("pat") {
            self.pat = value;
        } else if k == String::from_str("write") {
            let v = to_lowercase(value.as_str());
            self.writeable = v == String::from_str("true");
        } else if k == String::from_str("watch") {
            self.watch = Some(to_lowercase(value.as_str()));
        } else {
            return Err(VolumeError::NoOption(key));
        }
        Ok(())
    }

    /// The final consistency pass over a record with all options applied.
    /// Returns exactly the error [`validation_error`] gives, or nothing.
    pub fn validate(&self) -> (r: Result<(), VolumeError>)
        ensures
            match validation_error(self@) {
                Some(e) => r matches Err(err) && err@ == e,
                None => r is Ok,
            },
    {
        if self.repo.as_str().is_empty() {
            return Err(VolumeError::InvalidOptions(String::from_str("\"repo\" option not set")));
        }
        if self.commit.as_str().is_empty() {
            return Err(
                VolumeError::InvalidOptions(String::from_str("\"commit\" option not set")),
            );
        }
        if self.writeable && self.watch.is_some() {
            return Err(
                VolumeError::InvalidOptions(
                    String::from_str("Writable and watch are incompatible options"),
                ),
            );
        }
        if let Some(interval) = &self.watch {
            if !(is_plain_interval(interval.as_str()) && parses_as_duration(interval.as_str())) {
                let mut msg = String::from_str("interval provided for watch: ");
                msg.append(interval.as_str());
                msg.append(" is invalid");
                return Err(VolumeError::InvalidOptions(msg));
            }
        }
        Ok(())
    }

    /// A field-for-field copy of this record.
    pub fn duplicate(&self) -> (r: Self)
        ensures
            r == self,
    {
        XetVolume {
            repo: self.repo.clone(),
            commit: self.commit.clone(),
            username: self.username.clone(),
            pat: self.pat.clone(),
            writeable: self.writeable,
            mount_path: self.mount_path.clone(),
            watch: match &self.watch {
                Some(w) => Some(w.clone()),
                None => None,
            },
        }
    }
}

} // verus!
