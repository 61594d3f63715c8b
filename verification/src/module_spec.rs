//! The declarative description of a module to be created: its name, its
//! module type, its engine configuration, and its environment mapping.

use vstd::prelude::*;

use crate::config::EngineConfig;
use crate::env::StringMap;

verus! {

/// A module specification; immutable once handed to `create`.
#[derive(Debug, PartialEq)]
pub struct ModuleSpec {
    pub name: String,
    pub type_: String,
    pub config: EngineConfig,
    pub env: StringMap,
}

impl ModuleSpec {
    /// A fresh specification with an empty environment mapping.
    pub fn new(name: String, type_: String, config: EngineConfig) -> (r: ModuleSpec)
        ensures
            r.name == name,
            r.type_ == type_,
            r.config == config,
            r.env@ == Seq::<(Seq<char>, Seq<char>)>::empty(),
    {
        ModuleSpec { name, type_, config, env: StringMap::new() }
    }

    pub fn set_name(&mut self, name: String)
        ensures
            *final(self) == (ModuleSpec { name, ..*old(self) }),
    {
        self.name = name;
    }

    pub fn with_name(self, name: String) -> (r: ModuleSpec)
        ensures
            r == (ModuleSpec { name, ..self }),
    {
        ModuleSpec { name, ..self }
    }

    pub fn name(&self) -> (r: &String)
        ensures
            r == self.name,
    {
        &self.name
    }

    pub fn set_type(&mut self, type_: String)
        ensures
            *final(self) == (ModuleSpec { type_, ..*old(self) }),
    {
        self.type_ = type_;
    }

    pub fn with_type(self, type_: String) -> (r: ModuleSpec)
        ensures
            r == (ModuleSpec { type_, ..self }),
    {
        ModuleSpec { type_, ..self }
    }

    pub fn type_(&self) -> (r: &String)
        ensures
            r == self.type_,
    {
        &self.type_
    }

    pub fn set_config(&mut self, config: EngineConfig)
        ensures
            *final(self) == (ModuleSpec { config, ..*old(self) }),
    {
        self.config = config;
    }

    pub fn with_config(self, config: EngineConfig) -> (r: ModuleSpec)
        ensures
            r == (ModuleSpec { config, ..self }),
    {
        ModuleSpec { config, ..self }
    }

    pub fn config(&self) -> (r: &EngineConfig)
        ensures
            r == self.config,
    {
        &self.config
    }

    pub fn set_env(&mut self, env: StringMap)
        ensures
            *final(self) == (ModuleSpec { env, ..*old(self) }),
    {
        self.env = env;
    }

    pub fn with_env(self, env: StringMap) -> (r: ModuleSpec)
        ensures
            r == (ModuleSpec { env, ..self }),
    {
        ModuleSpec { env, ..self }
    }

    pub fn env(&self) -> (r: &StringMap)
        ensures
            r == self.env,
    {
        &self.env
    }
}

} // verus!
