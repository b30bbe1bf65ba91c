//! Input modules: the file formats libsigrok can read data from.

use vstd::prelude::*;

use crate::text::texts;

verus! {

/// The mathematical content of an input module.
pub struct InputModuleModel {
    pub name: Seq<char>,
    pub description: Seq<char>,
    pub id: Seq<char>,
    pub file_extensions: Seq<Seq<char>>,
}

/// A file format that libsigrok can read data from.
#[derive(Debug, Clone)]
pub struct InputModule {
    name: String,
    description: String,
    id: String,
    file_extensions: Vec<String>,
}

impl View for InputModule {
    type V = InputModuleModel;

    closed spec fn view(&self) -> InputModuleModel {
        InputModuleModel {
            name: self.name@,
            description: self.description@,
            id: self.id@,
            file_extensions: texts(self.file_extensions@),
        }
    }
}

impl InputModule {
    /// Builds an input module from what libsigrok reports of it.
    pub fn new(name: String, description: String, id: String, file_extensions: Vec<String>) -> (m:
        InputModule)
        ensures
            m@ == (InputModuleModel {
                name: name@,
                description: description@,
                id: id@,
                file_extensions: texts(file_extensions@),
            }),
    {
        InputModule { name, description, id, file_extensions }
    }

    /// Returns the module's name.
    pub fn get_name(&self) -> (r: &String)
        ensures
            r@ == self@.name,
    {
        &self.name
    }

    /// Returns the module's description.
    pub fn get_description(&self) -> (r: &String)
        ensures
            r@ == self@.description,
    {
        &self.description
    }

    /// Returns the module's identifier.
    pub fn get_id(&self) -> (r: &String)
        ensures
            r@ == self@.id,
    {
        &self.id
    }

    /// Returns the file extensions of the format.
    pub fn get_file_extensions(&self) -> (r: &Vec<String>)
        ensures
            texts(r@) == self@.file_extensions,
    {
        &self.file_extensions
    }
}

} // verus!
