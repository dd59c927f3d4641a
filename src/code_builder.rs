//! Configuration of the WebAssembly bytes to compile: binary or text.
use vstd::prelude::*;

verus! {

#[verifier::external_type_specification]
#[verifier::external_body]
pub struct ExWatError(wat::Error);

/// The binary module that the text-format parser makes of `bytes`, or none
/// where it rejects them.
pub uninterp spec fn wat_binary(bytes: Seq<u8>) -> Option<Seq<u8>>;

/// Whether `bytes` start with the binary module magic `\0asm`.
pub open spec fn has_wasm_magic(bytes: Seq<u8>) -> bool {
    bytes.len() >= 4 && bytes[0] == 0u8 && bytes[1] == 0x61u8 && bytes[2] == 0x73u8 && bytes[3]
        == 0x6du8
}

/// Relies on `wat::parse_bytes`: bytes that start with `\0asm` come back
/// unchanged; other bytes are parsed as text, with an outcome that depends
/// on the bytes alone.
#[verifier::external_body]
fn parse_wat(bytes: &[u8]) -> (r: Result<Vec<u8>, wat::Error>)
    ensures
        r is Ok <==> wat_binary(bytes@) is Some,
        r is Ok ==> wat_binary(bytes@) == Some(r->Ok_0@),
        has_wasm_magic(bytes@) ==> r is Ok && r->Ok_0@ == bytes@,
{
    match wat::parse_bytes(bytes) {
        Ok(b) => Ok(b.into_owned()),
        Err(e) => Err(e),
    }
}

/// Relies on `wat::Error::set_path`: the error's message names `path`.
#[verifier::external_body]
fn error_with_path(e: wat::Error, path: &str) -> (r: wat::Error) {
    let mut e = e;
    e.set_path(path);
    e
}

/// Why a [`CodeBuilder`] cannot go on.
#[derive(Debug)]
pub enum CodeBuilderError {
    /// Bytes were configured twice.
    WasmAlreadySet,
    /// No bytes were configured.
    NoWasm,
    /// The text format could not be parsed.
    Wat(wat::Error),
}

/// Builder for compiling a module: holds the engine, the WebAssembly bytes
/// (binary or text format) and whether text is accepted.
pub struct CodeBuilder<'a, E> {
    engine: &'a E,
    wasm: Option<Vec<u8>>,
    wasm_path: Option<String>,
    wat: bool,
}

impl<'a, E> CodeBuilder<'a, E> {
    /// The engine that compiles the module.
    pub closed spec fn engine_spec(&self) -> &'a E {
        self.engine
    }

    /// The configured bytes.
    pub closed spec fn wasm_spec(&self) -> Option<Seq<u8>> {
        match self.wasm {
            Some(w) => Some(w@),
            None => None,
        }
    }

    /// The configured path of the bytes, used in messages only.
    pub closed spec fn wasm_path_spec(&self) -> Option<Seq<char>> {
        match self.wasm_path {
            Some(p) => Some(p@),
            None => None,
        }
    }

    /// Whether the text format is accepted.
    pub closed spec fn wat_spec(&self) -> bool {
        self.wat
    }

    /// The binary that `wasm_binary` yields from the configuration.
    pub open spec fn binary_spec(&self) -> Option<Seq<u8>> {
        match self.wasm_spec() {
            Some(w) => if self.wat_spec() {
                wat_binary(w)
            } else {
                Some(w)
            },
            None => None,
        }
    }

    /// The engine that compiles the module.
    pub fn engine(&self) -> (r: &'a E)
        ensures
            r == self.engine_spec(),
    {
        self.engine
    }

    /// A builder for `engine` with no bytes yet; the text format is accepted.
    pub fn new(engine: &'a E) -> (r: Self)
        ensures
            r.engine_spec() == engine,
            r.wasm_spec() is None,
            r.wasm_path_spec() is None,
            r.wat_spec(),
    {
        CodeBuilder { engine, wasm: None, wasm_path: None, wat: true }
    }

    /// Whether bytes to compile are configured already.
    pub fn has_wasm(&self) -> (r: bool)
        ensures
            r == (self.wasm_spec() is Some),
    {
        self.wasm.is_some()
    }

    /// Configures the bytes to compile, binary or text, and the path they
    /// came from, if any. Fails if bytes were configured already.
    pub fn wasm(&mut self, wasm_bytes: Vec<u8>, wasm_path: Option<String>) -> (r: Result<(), CodeBuilderError>)
        ensures
            final(self).engine_spec() == old(self).engine_spec(),
            final(self).wat_spec() == old(self).wat_spec(),
            old(self).wasm_spec() is Some ==> (r matches Err(CodeBuilderError::WasmAlreadySet))
                && final(self).wasm_spec() == old(self).wasm_spec()
                && final(self).wasm_path_spec() == old(self).wasm_path_spec(),
            old(self).wasm_spec() is None ==> r is Ok && final(self).wasm_spec() == Some(wasm_bytes@)
                && final(self).wasm_path_spec() == (match wasm_path {
                Some(p) => Some(p@),
                None => None::<Seq<char>>,
            }),
    {
        if self.wasm.is_some() {
            return Err(CodeBuilderError::WasmAlreadySet);
        }
        self.wasm = Some(wasm_bytes);
        self.wasm_path = wasm_path;
        Ok(())
    }

    /// Configures whether the text format is accepted. Text support is
    /// always built in, so this does not fail.
    pub fn wat(&mut self, enable: bool) -> (r: Result<(), CodeBuilderError>)
        ensures
            r is Ok,
            final(self).wat_spec() == enable,
            final(self).engine_spec() == old(self).engine_spec(),
            final(self).wasm_spec() == old(self).wasm_spec(),
            final(self).wasm_path_spec() == old(self).wasm_path_spec(),
    {
        self.wat = enable;
        Ok(())
    }

    /// The binary module to compile: the configured bytes, run through the
    /// text-format parser when text is accepted.
    pub fn wasm_binary(&self) -> (r: Result<Vec<u8>, CodeBuilderError>)
        ensures
            self.wasm_spec() is None ==> (r matches Err(CodeBuilderError::NoWasm)),
            self.wasm_spec() is Some ==> (match r {
                Ok(b) => self.binary_spec() == Some(b@),
                Err(e) => self.binary_spec() is None && e is Wat,
            }),
    {
        let wasm = match &self.wasm {
            Some(w) => w,
            None => return Err(CodeBuilderError::NoWasm),
        };
        if self.wat {
            match parse_wat(wasm.as_slice()) {
                Ok(b) => Ok(b),
                Err(e) => match &self.wasm_path {
                    Some(path) => Err(CodeBuilderError::Wat(error_with_path(e, path.as_str()))),
                    None => Err(CodeBuilderError::Wat(e)),
                },
            }
        } else {
            Ok(wasm.clone())
        }
    }
}

} // verus!
