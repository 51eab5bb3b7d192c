//! What a session is given before its host runs anything: the module and,
//! at most once and only before the first call, the storage to start from.

use crate::error::DebuggerError;
use crate::runtime::input::{check_initial_storage, spec_is_storage_seed};
use vstd::prelude::*;
use vstd::string::*;

verus! {

/// The inputs of one session: one module, one initial storage snapshot.
#[derive(Debug)]
pub struct ExecutionSession {
    module_bytes: Vec<u8>,
    initial_storage: Option<String>,
    started: bool,
}

impl ExecutionSession {
    /// The bytes of the module that the session is bound to.
    pub closed spec fn spec_module_bytes(&self) -> Seq<u8> {
        self.module_bytes@
    }

    /// The text that the storage was seeded with, where it was seeded.
    pub closed spec fn spec_initial_storage(&self) -> Option<Seq<char>> {
        match self.initial_storage {
            Some(s) => Some(s@),
            None => None,
        }
    }

    /// Whether the first call has begun.
    pub closed spec fn spec_started(&self) -> bool {
        self.started
    }

    /// Whether the session still takes a storage seed: none was given and
    /// no call has begun.
    pub open spec fn spec_can_seed(&self) -> bool {
        !self.spec_started() && self.spec_initial_storage() is None
    }

    /// A session over `module_bytes`, unseeded and not started.
    pub fn new(module_bytes: Vec<u8>) -> (r: Self)
        ensures
            r.spec_module_bytes() == module_bytes@,
            r.spec_initial_storage() is None,
            !r.spec_started(),
    {
        ExecutionSession { module_bytes, initial_storage: None, started: false }
    }

    /// The bytes of the module that the session is bound to.
    pub fn module_bytes(&self) -> (r: &Vec<u8>)
        ensures
            r@ == self.spec_module_bytes(),
    {
        &self.module_bytes
    }

    /// The text that the storage was seeded with, where it was seeded.
    pub fn initial_storage(&self) -> (r: &Option<String>)
        ensures
            match *r {
                Some(s) => self.spec_initial_storage() == Some(s@),
                None => self.spec_initial_storage() is None,
            },
    {
        &self.initial_storage
    }

    /// Whether the first call has begun.
    pub fn started(&self) -> (r: bool)
        ensures
            r == self.spec_started(),
    {
        self.started
    }

    /// Seeds the storage from the text of a JSON object. A session that was
    /// seeded before, or whose first call has begun, refuses with
    /// `PreconditionViolation`; a text that is not a JSON object is refused
    /// with `StorageParse`, carrying the text. A refusal changes nothing.
    pub fn seed_storage(&mut self, json: &str) -> (r: Result<(), DebuggerError>)
        ensures
            final(self).spec_module_bytes() == old(self).spec_module_bytes(),
            final(self).spec_started() == old(self).spec_started(),
            r is Ok <==> old(self).spec_can_seed() && spec_is_storage_seed(json@),
            r is Ok ==> final(self).spec_initial_storage() == Some(json@),
            r is Err ==> final(self).spec_initial_storage() == old(self).spec_initial_storage(),
            !old(self).spec_can_seed() ==> (r matches Err(e) && e is PreconditionViolation),
            old(self).spec_can_seed() && !spec_is_storage_seed(json@) ==> (r matches Err(
                DebuggerError::StorageParse(t),
            ) && t@ == json@),
    {
        if self.started || self.initial_storage.is_some() {
            return Err(
                DebuggerError::PreconditionViolation(
                    "storage is seeded once, before the first call".to_owned(),
                ),
            );
        }
        match check_initial_storage(json) {
            Ok(()) => {
                self.initial_storage = Some(json.to_owned());
                Ok(())
            },
            Err(e) => Err(e),
        }
    }

    /// Marks the beginning of the first call: from here on the storage can
    /// no longer be seeded.
    pub fn begin_call(&mut self)
        ensures
            final(self).spec_started(),
            final(self).spec_module_bytes() == old(self).spec_module_bytes(),
            final(self).spec_initial_storage() == old(self).spec_initial_storage(),
    {
        self.started = true;
    }
}

} // verus!
