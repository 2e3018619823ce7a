//! App configuration: the values the engine is handed per call.
//!
//! The configuration is created, loaded and saved by the surrounding program;
//! this module holds the record itself and its pure updates.  The project
//! table keeps one number per project name, in insertion order.

use vstd::prelude::*;

use crate::items::spec_default_tz;
use crate::items::spec_today_date;
use crate::render::render_date;
use crate::render::spec_render_date;
use crate::text::str_eq;
use crate::zones::civil_date_of;

verus! {

/// App configuration, persisted by the surrounding program.
pub struct Config {
    pub token: String,
    pub projects: Vec<(String, u32)>,
    pub path: String,
    pub next_id: Option<String>,
    pub timezone: Option<String>,
    pub last_version_check: Option<String>,
}

/// Project names are unique, as keys of a map.
pub open spec fn keys_unique(s: Seq<(String, u32)>) -> bool {
    forall|i: int, j: int| 0 <= i < j < s.len() ==> s[i].0@ != s[j].0@
}

/// Some entry of the table carries this project name.
pub open spec fn has_key(s: Seq<(String, u32)>, k: Seq<char>) -> bool {
    exists|i: int| 0 <= i < s.len() && s[i].0@ == k
}

/// The index of the entry carrying this project name (unique under `wf`).
pub open spec fn key_at(s: Seq<(String, u32)>, k: Seq<char>) -> int {
    choose|i: int| 0 <= i < s.len() && s[i].0@ == k
}

/// The position of the entry carrying `k`, if any.
fn find_key(s: &Vec<(String, u32)>, k: &str) -> (r: Option<usize>)
    requires
        keys_unique(s@),
    ensures
        r is Some <==> has_key(s@, k@),
        r is Some ==> 0 <= r->0 < s@.len() && s@[r->0 as int].0@ == k@ && r->0 as int == key_at(
            s@,
            k@,
        ),
{
    let mut idx: usize = 0;
    while idx < s.len()
        invariant
            keys_unique(s@),
            idx <= s@.len(),
            forall|j: int| 0 <= j < idx ==> s@[j].0@ != k@,
        decreases s@.len() - idx,
    {
        if str_eq(s[idx].0.as_str(), k) {
            proof {
                assert(s@[idx as int].0@ == k@);
                let at = key_at(s@, k@);
                assert(0 <= at < s@.len() && s@[at].0@ == k@);
                assert(at == idx) by {
                    if at < idx {
                        assert(s@[at].0@ != s@[idx as int].0@);
                    }
                    if at > idx {
                        assert(s@[idx as int].0@ != s@[at].0@);
                    }
                }
            }
            return Some(idx);
        }
        idx += 1;
    }
    None
}

impl Config {
    /// Project names are unique, as keys of a map.
    pub open spec fn wf(self) -> bool {
        keys_unique(self.projects@)
    }

    /// A fresh configuration: the given token and file path, nothing else.
    pub fn new(token: &str, path: String) -> (r: Config)
        ensures
            r.token@ == token@,
            r.projects@ =~= Seq::<(String, u32)>::empty(),
            r.path == path,
            r.next_id is None,
            r.timezone is None,
            r.last_version_check is None,
            r.wf(),
    {
        Config {
            token: token.to_owned(),
            projects: Vec::new(),
            path,
            next_id: None,
            timezone: None,
            last_version_check: None,
        }
    }

    /// The same configuration at another file path.
    pub fn set_path(self, path: &str) -> (r: Config)
        ensures
            r.path@ == path@,
            r.token == self.token,
            r.projects == self.projects,
            r.next_id == self.next_id,
            r.timezone == self.timezone,
            r.last_version_check == self.last_version_check,
    {
        Config { path: path.to_owned(), ..self }
    }

    /// Binds `name` to `number`: replaces the entry carrying `name`, or
    /// appends one.  Other entries and their order are kept.
    pub fn add_project(self, name: String, number: u32) -> (r: Config)
        requires
            self.wf(),
        ensures
            r.wf(),
            has_key(self.projects@, name@) ==> r.projects@ =~= self.projects@.update(
                key_at(self.projects@, name@),
                (name, number),
            ),
            !has_key(self.projects@, name@) ==> r.projects@ =~= self.projects@.push(
                (name, number),
            ),
            r.token == self.token,
            r.path == self.path,
            r.next_id == self.next_id,
            r.timezone == self.timezone,
            r.last_version_check == self.last_version_check,
    {
        let found = find_key(&self.projects, name.as_str());
        let mut projects = self.projects;
        let ghost orig = projects@;
        match found {
            Some(i) => {
                projects.remove(i);
                projects.insert(i, (name, number));
                proof {
                    assert(projects@ =~= orig.update(i as int, (name, number)));
                }
            },
            None => {
                projects.push((name, number));
            },
        }
        proof {
            assert(keys_unique(projects@)) by {
                assert forall|i: int, j: int| 0 <= i < j < projects@.len() implies projects@[i].0@
                    != projects@[j].0@ by {
                    if j < orig.len() {
                        assert(projects@[i].0@ == orig[i].0@ || projects@[i].0@ == name@);
                    }
                }
            }
        }
        Config { projects, ..self }
    }

    /// Drops the entry carrying `name`, if any.  Other entries and their
    /// order are kept.
    pub fn remove_project(self, name: &str) -> (r: Config)
        requires
            self.wf(),
        ensures
            r.wf(),
            has_key(self.projects@, name@) ==> r.projects@ =~= self.projects@.remove(
                key_at(self.projects@, name@),
            ),
            !has_key(self.projects@, name@) ==> r.projects@ =~= self.projects@,
            r.token == self.token,
            r.path == self.path,
            r.next_id == self.next_id,
            r.timezone == self.timezone,
            r.last_version_check == self.last_version_check,
    {
        let found = find_key(&self.projects, name);
        let mut projects = self.projects;
        let ghost orig = projects@;
        match found {
            Some(i) => {
                projects.remove(i);
            },
            None => {},
        }
        proof {
            assert(keys_unique(projects@)) by {
                assert forall|i: int, j: int| 0 <= i < j < projects@.len() implies projects@[i].0@
                    != projects@[j].0@ by {
                    assert(exists|a: int, b: int|
                        0 <= a < b < orig.len() && projects@[i] == orig[a] && projects@[j]
                            == orig[b]) by {
                        match found {
                            Some(at) => {
                                let a: int = if i < at as int {
                                    i
                                } else {
                                    i + 1
                                };
                                let b: int = if j < at as int {
                                    j
                                } else {
                                    j + 1
                                };
                                assert(0 <= a < b < orig.len() && projects@[i] == orig[a]
                                    && projects@[j] == orig[b]);
                            },
                            None => {
                                assert(0 <= i < j < orig.len() && projects@[i] == orig[i]
                                    && projects@[j] == orig[j]);
                            },
                        }
                    }
                }
            }
        }
        Config { projects, ..self }
    }

    /// The number bound to `name`, if any.
    pub fn project_number(&self, name: &str) -> (r: Option<u32>)
        requires
            self.wf(),
        ensures
            r is Some <==> has_key(self.projects@, name@),
            r is Some ==> r->0 == self.projects@[key_at(self.projects@, name@)].1,
    {
        match find_key(&self.projects, name) {
            Some(i) => Some(self.projects[i].1),
            None => None,
        }
    }

    /// Whether the project table really has unique names — the validity
    /// check a caller runs before relying on the table as a map, for a
    /// configuration that arrived from outside.
    pub fn projects_keys_unique(&self) -> (r: bool)
        ensures
            r == self.wf(),
    {
        let n = self.projects.len();
        let mut i: usize = 0;
        while i < n
            invariant
                n == self.projects@.len(),
                i <= n,
                forall|a: int, b: int|
                    0 <= a < b < n && a < i ==> self.projects@[a].0@ != self.projects@[b].0@,
            decreases n - i,
        {
            let mut j: usize = i + 1;
            while j < n
                invariant
                    n == self.projects@.len(),
                    i < n,
                    i < j <= n,
                    forall|b: int| i < b < j ==> self.projects@[i as int].0@ != self.projects@[b].0@,
                decreases n - j,
            {
                if str_eq(self.projects[i].0.as_str(), self.projects[j].0.as_str()) {
                    proof {
                        assert(self.projects@[i as int].0@ == self.projects@[j as int].0@);
                    }
                    return false;
                }
                j += 1;
            }
            i += 1;
        }
        true
    }

    /// Remembers the task the user acted on last.
    pub fn set_next_id(&self, next_id: String) -> (r: Config)
        ensures
            r.next_id == Some(next_id),
            r.token == self.token,
            r.projects@ == self.projects@,
            r.path == self.path,
            r.timezone == self.timezone,
            r.last_version_check == self.last_version_check,
    {
        Config { next_id: Some(next_id), ..self.clone_parts() }
    }

    /// Forgets the remembered task.
    pub fn clear_next_id(self) -> (r: Config)
        ensures
            r.next_id is None,
            r.token == self.token,
            r.projects == self.projects,
            r.path == self.path,
            r.timezone == self.timezone,
            r.last_version_check == self.last_version_check,
    {
        Config { next_id: None, ..self }
    }

    /// A field-for-field copy.
    pub fn clone_parts(&self) -> (r: Config)
        ensures
            r.token == self.token,
            r.projects@ == self.projects@,
            r.path == self.path,
            r.next_id == self.next_id,
            r.timezone == self.timezone,
            r.last_version_check == self.last_version_check,
    {
        Config {
            token: clone_string(&self.token),
            projects: clone_projects(&self.projects),
            path: clone_string(&self.path),
            next_id: clone_opt_string(&self.next_id),
            timezone: clone_opt_string(&self.timezone),
            last_version_check: clone_opt_string(&self.last_version_check),
        }
    }
}

/// A copy of a string, equal to the original.
fn clone_string(s: &String) -> (r: String)
    ensures
        r == *s,
{
    s.clone()
}

/// A copy of an optional string, equal to the original.
fn clone_opt_string(s: &Option<String>) -> (r: Option<String>)
    ensures
        r == *s,
{
    match s {
        Some(v) => Some(v.clone()),
        None => None,
    }
}

/// A copy of the project table, equal to the original.
fn clone_projects(s: &Vec<(String, u32)>) -> (r: Vec<(String, u32)>)
    ensures
        r@ == s@,
{
    let mut out: Vec<(String, u32)> = Vec::new();
    let mut idx: usize = 0;
    while idx < s.len()
        invariant
            idx <= s@.len(),
            out@ =~= s@.subrange(0, idx as int),
        decreases s@.len() - idx,
    {
        out.push((s[idx].0.clone(), s[idx].1));
        idx += 1;
    }
    proof {
        assert(out@ =~= s@);
    }
    out
}


/// Today rendered as `YYYY-MM-DD` in the default zone, the version-check
/// marker kept in the configuration.  A day whose year does not fit four
/// digits renders as the empty string.
pub open spec fn spec_today_string(tz: Option<String>, now: int) -> Seq<char> {
    let d = spec_today_date(now, spec_default_tz(tz));
    if 0 <= d.year <= 9999 {
        spec_render_date(d)
    } else {
        Seq::<char>::empty()
    }
}

impl Config {
    /// Today rendered as the version-check marker.
    pub fn today_string(&self, now: i64) -> (r: String)
        ensures
            r@ == spec_today_string(self.timezone, now as int),
    {
        let tz: &str = match &self.timezone {
            Some(t) => t.as_str(),
            None => "UTC",
        };
        let today = civil_date_of(now, tz);
        if 0 <= today.year && today.year <= 9999 {
            render_date(&today)
        } else {
            String::new()
        }
    }

    /// A version check is due when none was recorded today.
    pub fn version_check_due(&self, now: i64) -> (r: bool)
        ensures
            r == match self.last_version_check {
                None => true,
                Some(s) => s@ != spec_today_string(self.timezone, now as int),
            },
    {
        let marker = self.today_string(now);
        match &self.last_version_check {
            None => true,
            Some(s) => !str_eq(s.as_str(), marker.as_str()),
        }
    }

    /// The configuration with today recorded as the last version check.
    pub fn mark_version_checked(&self, now: i64) -> (r: Config)
        ensures
            r.last_version_check matches Some(s) && s@ == spec_today_string(
                self.timezone,
                now as int,
            ),
            r.token == self.token,
            r.projects@ == self.projects@,
            r.path == self.path,
            r.next_id == self.next_id,
            r.timezone == self.timezone,
    {
        Config { last_version_check: Some(self.today_string(now)), ..self.clone_parts() }
    }
}

} // verus!
