//! A request to build one module.

use vstd::prelude::*;
use vstd::string::*;
use crate::name::{is_valid_name, is_valid_segment, valid_name, valid_segment};

verus! {

/// What a build request holds, as plain texts.
pub struct RequestModel {
    /// The module name.
    pub name: Seq<char>,
    /// The source text to compile.
    pub source_code: Seq<char>,
    /// The identifier of this build attempt, if it has one.
    pub build_id: Option<Seq<char>>,
}

impl RequestModel {
    /// The name is a valid module name and the build identifier, if there is
    /// one, a valid segment.
    pub open spec fn wf(self) -> bool {
        &&& valid_name(self.name)
        &&& self.build_id matches Some(id) ==> valid_segment(id)
    }
}

/// A named piece of source text to be compiled, optionally tagged with the
/// identifier of the build attempt. Every value of this type is well formed:
/// the constructors refuse anything else.
#[derive(Debug, PartialEq, Eq)]
pub struct BuildRequest {
    name: String,
    source_code: String,
    build_id: Option<String>,
}

impl View for BuildRequest {
    type V = RequestModel;

    closed spec fn view(&self) -> RequestModel {
        RequestModel {
            name: self.name@,
            source_code: self.source_code@,
            build_id: match self.build_id {
                Some(id) => Some(id@),
                None => None,
            },
        }
    }
}

impl BuildRequest {
    #[verifier::type_invariant]
    spec fn well_formed(self) -> bool {
        self@.wf()
    }

    /// A request without a build identifier. `None` exactly when `name` is no
    /// valid module name.
    pub fn new(name: &str, source_code: &str) -> (req: Option<BuildRequest>)
        ensures
            req is Some <==> valid_name(name@),
            req matches Some(r) ==> r@ == (RequestModel {
                name: name@,
                source_code: source_code@,
                build_id: None,
            }),
    {
        if is_valid_name(name) {
            Some(
                BuildRequest {
                    name: String::from_str(name),
                    source_code: String::from_str(source_code),
                    build_id: None,
                },
            )
        } else {
            None
        }
    }

    /// The same request, tagged as the build attempt `build_id`. `None`
    /// exactly when `build_id` is no valid segment.
    pub fn with_build_id(self, build_id: &str) -> (req: Option<BuildRequest>)
        ensures
            req is Some <==> valid_segment(build_id@),
            req matches Some(r) ==> r@ == (RequestModel {
                name: self@.name,
                source_code: self@.source_code,
                build_id: Some(build_id@),
            }),
    {
        proof {
            use_type_invariant(&self);
        }
        if is_valid_segment(build_id) {
            Some(
                BuildRequest {
                    name: self.name,
                    source_code: self.source_code,
                    build_id: Some(String::from_str(build_id)),
                },
            )
        } else {
            None
        }
    }

    /// The module name.
    pub fn name(&self) -> (name: &str)
        ensures
            name@ == self@.name,
            valid_name(name@),
    {
        proof {
            use_type_invariant(self);
        }
        self.name.as_str()
    }

    /// The source text.
    pub fn source_code(&self) -> (source_code: &str)
        ensures
            source_code@ == self@.source_code,
    {
        self.source_code.as_str()
    }

    /// The build identifier, if the request has one.
    pub fn build_id(&self) -> (build_id: Option<&str>)
        ensures
            build_id is Some <==> self@.build_id is Some,
            build_id matches Some(id) ==> self@.build_id == Some(id@) && valid_segment(id@),
    {
        proof {
            use_type_invariant(self);
        }
        match &self.build_id {
            Some(id) => Some(id.as_str()),
            None => None,
        }
    }
}

} // verus!
