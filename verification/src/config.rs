//! Configuration the lifecycle operations consume: the engine-specific
//! create parameters, the registry credential descriptor with its encoded
//! blob, and the log-query options.

use vstd::prelude::*;

use crate::env::StringMap;
use crate::error::Error;
use crate::json::{auth_fields_of, json_object, write_json_object};
use crate::text::is_blank;
use crate::text::spec_is_blank;

verus! {

/// Registry credentials for an image pull.
#[derive(Clone, Debug, PartialEq, Eq)]
pub struct RegistryAuth {
    pub username: Option<String>,
    pub password: Option<String>,
    pub email: Option<String>,
    pub serveraddress: Option<String>,
}

/// The credential blob of a registry auth descriptor: a JSON object holding
/// the fields that are present, in declaration order.
pub open spec fn auth_json(a: RegistryAuth) -> Seq<char> {
    json_object(auth_fields_of(a.username, a.password, a.email, a.serveraddress))
}

impl RegistryAuth {
    pub fn new() -> (r: RegistryAuth)
        ensures
            r.username is None,
            r.password is None,
            r.email is None,
            r.serveraddress is None,
    {
        RegistryAuth { username: None, password: None, email: None, serveraddress: None }
    }

    /// Write the JSON credential object of this descriptor.
    pub fn to_json(&self) -> (r: String)
        ensures
            r@ == auth_json(*self),
    {
        let mut fields: Vec<(String, String)> = Vec::new();
        if let Some(u) = &self.username {
            fields.push((String::from_str("username"), u.clone()));
        }
        if let Some(p) = &self.password {
            fields.push((String::from_str("password"), p.clone()));
        }
        if let Some(e) = &self.email {
            fields.push((String::from_str("email"), e.clone()));
        }
        if let Some(s) = &self.serveraddress {
            fields.push((String::from_str("serveraddress"), s.clone()));
        }
        proof {
            assert(fields@.map_values(|p: (String, String)| (p.0@, p.1@)) =~= auth_fields_of(
                self.username,
                self.password,
                self.email,
                self.serveraddress,
            ));
        }
        write_json_object(&fields)
    }
}

/// The engine's container-create parameter bag, reduced to the fields this
/// core reads or writes.
#[derive(Debug, PartialEq)]
pub struct CreateOptions {
    pub env: Option<Vec<String>>,
    pub labels: Option<StringMap>,
    pub image: Option<String>,
}

impl CreateOptions {
    pub fn new() -> (r: CreateOptions)
        ensures
            r.env is None,
            r.labels is None,
            r.image is None,
    {
        CreateOptions { env: None, labels: None, image: None }
    }

    pub fn with_env(self, env: Vec<String>) -> (r: CreateOptions)
        ensures
            r.env matches Some(e) && e == env,
            r.labels == self.labels,
            r.image == self.image,
    {
        CreateOptions { env: Some(env), ..self }
    }

    pub fn with_labels(self, labels: StringMap) -> (r: CreateOptions)
        ensures
            r.labels matches Some(l) && l == labels,
            r.env == self.env,
            r.image == self.image,
    {
        CreateOptions { labels: Some(labels), ..self }
    }

    pub fn with_image(self, image: String) -> (r: CreateOptions)
        ensures
            r.image matches Some(i) && i == image,
            r.env == self.env,
            r.labels == self.labels,
    {
        CreateOptions { image: Some(image), ..self }
    }
}

/// A module's engine configuration: the image to run, the create parameter
/// bag handed to the engine, and optional registry credentials.
#[derive(Debug, PartialEq)]
pub struct EngineConfig {
    pub image: String,
    pub image_id: Option<String>,
    pub create_options: CreateOptions,
    pub auth: Option<RegistryAuth>,
}

impl EngineConfig {
    /// A well-formed configuration names a non-blank image.
    pub open spec fn wf(self) -> bool {
        !spec_is_blank(self.image@)
    }

    /// Accepts exactly the configurations whose image is non-blank.
    pub fn new(image: String, create_options: CreateOptions, auth: Option<RegistryAuth>) -> (r:
        Result<EngineConfig, Error>)
        ensures
            r is Ok <==> !spec_is_blank(image@),
            r matches Ok(c) ==> c.image == image && c.image_id is None && c.create_options
                == create_options && c.auth == auth && c.wf(),
            r matches Err(e) ==> e == Error::InvalidIdentifier,
    {
        if is_blank(image.as_str()) {
            Err(Error::InvalidIdentifier)
        } else {
            Ok(EngineConfig { image, image_id: None, create_options, auth })
        }
    }

    pub fn with_image_id(self, image_id: String) -> (r: EngineConfig)
        ensures
            r.image_id matches Some(i) && i == image_id,
            r.image == self.image,
            r.create_options == self.create_options,
            r.auth == self.auth,
    {
        EngineConfig { image_id: Some(image_id), ..self }
    }

    pub fn image(&self) -> (r: &String)
        ensures
            r == self.image,
    {
        &self.image
    }

    pub fn image_id(&self) -> (r: &Option<String>)
        ensures
            r == self.image_id,
    {
        &self.image_id
    }

    pub fn create_options(&self) -> (r: &CreateOptions)
        ensures
            r == self.create_options,
    {
        &self.create_options
    }

    pub fn auth(&self) -> (r: &Option<RegistryAuth>)
        ensures
            r == self.auth,
    {
        &self.auth
    }
}

/// Options of a log query.
#[derive(Clone, Debug, PartialEq)]
pub struct LogOptions {
    pub follow: bool,
    pub tail: String,
}

impl LogOptions {
    pub fn new() -> (r: LogOptions)
        ensures
            r.follow == false,
            r.tail@ == "all"@,
    {
        LogOptions { follow: false, tail: String::from_str("all") }
    }

    pub fn with_follow(self, follow: bool) -> (r: LogOptions)
        ensures
            r.follow == follow,
            r.tail == self.tail,
    {
        LogOptions { follow, ..self }
    }

    pub fn with_tail(self, tail: String) -> (r: LogOptions)
        ensures
            r.tail == tail,
            r.follow == self.follow,
    {
        LogOptions { tail, ..self }
    }

    pub fn follow(&self) -> (r: bool)
        ensures
            r == self.follow,
    {
        self.follow
    }

    pub fn tail(&self) -> (r: &String)
        ensures
            r == self.tail,
    {
        &self.tail
    }
}

} // verus!
