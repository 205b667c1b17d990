//! A reference to a file that the file storage owns.

use crate::config::AppConfig;
use uuid::Uuid;
use vstd::prelude::*;
use vstd::string::StringExecFns;

verus! {

/// A stored file: its identifier and the name under which it is served.
pub struct AppFile {
    pub id: Uuid,
    pub name: String,
}

/// The address of the file `name` below the prefix `base`: the prefix, a
/// slash, the name.
pub open spec fn url_for(base: Seq<char>, name: Seq<char>) -> Seq<char> {
    base + seq!['/'] + name
}

/// An address below any prefix holds at least the slash.
pub proof fn lemma_url_not_empty(base: Seq<char>, name: Seq<char>)
    ensures
        url_for(base, name).len() == base.len() + 1 + name.len(),
        url_for(base, name).len() > 0,
{
}

impl AppFile {
    /// The display URL of this file under `config`.
    pub open spec fn url(&self, config: &AppConfig) -> Seq<char> {
        url_for(config.files_base_url@, self.name@)
    }

    /// Computes the display URL of this file under `config`. Never fails,
    /// touches nothing outside its arguments, and the result is not empty.
    pub fn get_url(&self, config: &AppConfig) -> (url: String)
        ensures
            url@ == self.url(config),
            url@.len() > 0,
    {
        let mut url = config.files_base_url.clone();
        url.append("/");
        url.append(self.name.as_str());
        proof {
            reveal_strlit("/");
        }
        url
    }
}

impl Clone for AppFile {
    fn clone(&self) -> (copy: AppFile)
        ensures
            copy == *self,
    {
        AppFile { id: self.id, name: self.name.clone() }
    }
}

} // verus!
