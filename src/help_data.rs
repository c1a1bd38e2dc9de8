//! The addresses of the three system functions that the stub and the unload
//! call need: `LoadLibraryW`, `FreeLibrary` and `GetLastError`.
//!
//! When controller and target share a bitness, the system module is mapped at
//! the same base in every process of a session (an OS guarantee taken as given,
//! not checked per target), so the controller's own addresses serve. A 64-bit
//! controller with a 32-bit target reads the offsets from the export directory
//! of the target's system module image instead.
use vstd::prelude::*;
use crate::errors::LoadInjectHelpDataError;

verus! {

#[verifier::external_type_specification]
#[verifier::external_body]
pub struct ExGoblinError(goblin::error::Error);

/// The export list of a PE image, each export as its name (if it has one) and its
/// relative address; `None` where the image does not parse.
pub uninterp spec fn pe_exports(image: Seq<u8>) -> Option<Seq<(Option<Seq<char>>, usize)>>;

/// The plain view of one export entry.
pub open spec fn export_view(e: (Option<String>, usize)) -> (Option<Seq<char>>, usize) {
    (
        match e.0 {
            Some(s) => Some(s@),
            None => None,
        },
        e.1,
    )
}

/// Relies on `goblin::pe::PE::parse`: parses a PE image and lists its exports,
/// in the order of the image's export table, with name and relative address.
#[verifier::external_body]
fn parse_pe_exports(image: &[u8]) -> (r: Result<Vec<(Option<String>, usize)>, goblin::error::Error>)
    ensures
        match r {
            Ok(v) => pe_exports(image@) == Some(v@.map_values(|e| export_view(e))),
            Err(_) => pe_exports(image@) is None,
        },
{
    let pe = goblin::pe::PE::parse(image)?;
    Ok(pe.exports.iter().map(|e| (e.name.map(|n| n.to_string()), e.rva)).collect())
}

/// The relative address of the first export named `name`.
pub open spec fn first_export_rva(exports: Seq<(Option<Seq<char>>, usize)>, name: Seq<char>) -> Option<usize>
    decreases exports.len(),
{
    if exports.len() == 0 {
        None
    } else if exports[0].0 == Some(name) {
        Some(exports[0].1)
    } else {
        first_export_rva(exports.drop_first(), name)
    }
}

/// Searches `exports` for the first one named `name`.
fn find_export_rva(exports: &Vec<(Option<String>, usize)>, name: &String) -> (r: Option<usize>)
    ensures
        r == first_export_rva(exports@.map_values(|e| export_view(e)), name@),
{
    let ghost all = exports@.map_values(|e| export_view(e));
    assert(all.subrange(0, all.len() as int) =~= all);
    let mut i: usize = 0;
    while i < exports.len()
        invariant
            i <= exports@.len(),
            all == exports@.map_values(|e| export_view(e)),
            first_export_rva(all, name@) == first_export_rva(all.subrange(i as int, all.len() as int), name@),
        decreases exports@.len() - i,
    {
        let ghost rest = all.subrange(i as int, all.len() as int);
        assert(rest.drop_first() =~= all.subrange(i + 1, all.len() as int));
        match &exports[i].0 {
            Some(n) => {
                if n.eq(name) {
                    return Some(exports[i].1);
                }
            },
            None => {},
        }
        i = i + 1;
    }
    None
}

/// A relative address usable as an offset: it fits in 32 bits and, added to
/// `module`, stays in the address space.
pub open spec fn usable_offset(module: usize, rva: usize) -> bool {
    rva <= u32::MAX && module + rva <= usize::MAX
}

/// An export was found, and its relative address is a usable offset from `module`.
pub open spec fn found_usable(module: usize, rva: Option<usize>) -> bool {
    match rva {
        Some(a) => usable_offset(module, a),
        None => false,
    }
}

/// Resolved help data: the system module's base in the target and the offsets of
/// the three functions from it.
#[derive(Clone, Copy, Debug)]
pub struct InjectHelpData {
    kernel32_module: usize,
    load_library_offset: u32,
    free_library_offset: u32,
    get_last_error_offset: u32,
}

impl InjectHelpData {
    pub closed spec fn module_base(&self) -> usize {
        self.kernel32_module
    }

    pub closed spec fn load_library_offset(&self) -> u32 {
        self.load_library_offset
    }

    pub closed spec fn free_library_offset(&self) -> u32 {
        self.free_library_offset
    }

    pub closed spec fn get_last_error_offset(&self) -> u32 {
        self.get_last_error_offset
    }

    /// Each function's address stays in the address space.
    pub open spec fn wf(&self) -> bool {
        &&& usable_offset(self.module_base(), self.load_library_offset() as usize)
        &&& usable_offset(self.module_base(), self.free_library_offset() as usize)
        &&& usable_offset(self.module_base(), self.get_last_error_offset() as usize)
    }

    /// The address of `LoadLibraryW` in the target.
    pub fn get_load_library_fn_ptr(&self) -> (r: usize)
        requires
            self.wf(),
        ensures
            r == self.module_base() + self.load_library_offset(),
    {
        self.kernel32_module + self.load_library_offset as usize
    }

    /// The address of `FreeLibrary` in the target.
    pub fn get_free_library_fn_ptr(&self) -> (r: usize)
        requires
            self.wf(),
        ensures
            r == self.module_base() + self.free_library_offset(),
    {
        self.kernel32_module + self.free_library_offset as usize
    }

    /// The address of `GetLastError` in the target.
    pub fn get_get_last_error(&self) -> (r: usize)
        requires
            self.wf(),
        ensures
            r == self.module_base() + self.get_last_error_offset(),
    {
        self.kernel32_module + self.get_last_error_offset as usize
    }

    /// Help data from the controller's own addresses of the system module and of
    /// the three functions, when controller and target share a bitness. Fails with
    /// `ExportNotFound` when a function lies below the module or more than 32 bits
    /// above it.
    pub fn from_local_addresses(
        module: usize,
        load_library: usize,
        free_library: usize,
        get_last_error: usize,
    ) -> (r: Result<InjectHelpData, LoadInjectHelpDataError>)
        ensures
            r is Ok <==> (module <= load_library && load_library - module <= u32::MAX && module
                <= free_library && free_library - module <= u32::MAX && module <= get_last_error
                && get_last_error - module <= u32::MAX),
            r matches Ok(d) ==> {
                &&& d.wf()
                &&& d.module_base() == module
                &&& d.module_base() + d.load_library_offset() == load_library
                &&& d.module_base() + d.free_library_offset() == free_library
                &&& d.module_base() + d.get_last_error_offset() == get_last_error
            },
            r matches Err(e) ==> e == LoadInjectHelpDataError::ExportNotFound,
    {
        if load_library < module || load_library - module > u32::MAX as usize || free_library
            < module || free_library - module > u32::MAX as usize || get_last_error < module
            || get_last_error - module > u32::MAX as usize {
            return Err(LoadInjectHelpDataError::ExportNotFound);
        }
        Ok(InjectHelpData {
            kernel32_module: module,
            load_library_offset: (load_library - module) as u32,
            free_library_offset: (free_library - module) as u32,
            get_last_error_offset: (get_last_error - module) as u32,
        })
    }

    /// Help data from the image of the target's system module, loaded at `module`
    /// in the target. Fails with `InvalidImage` when the image does not parse, and
    /// with `ExportNotFound` when one of the three functions is not exported or
    /// its relative address is not a usable offset from `module`.
    pub fn from_image(module: usize, image: &[u8]) -> (r: Result<InjectHelpData, LoadInjectHelpDataError>)
        ensures
            pe_exports(image@) is None ==> r == Err::<InjectHelpData, _>(
                LoadInjectHelpDataError::InvalidImage,
            ),
            pe_exports(image@) matches Some(es) ==> {
                let ll = first_export_rva(es, "LoadLibraryW"@);
                let fl = first_export_rva(es, "FreeLibrary"@);
                let gle = first_export_rva(es, "GetLastError"@);
                let found = found_usable(module, ll) && found_usable(module, fl) && found_usable(
                    module,
                    gle,
                );
                &&& (r is Ok <==> found)
                &&& !found ==> r == Err::<InjectHelpData, _>(LoadInjectHelpDataError::ExportNotFound)
                &&& r matches Ok(d) ==> {
                    &&& d.wf()
                    &&& d.module_base() == module
                    &&& Some(d.load_library_offset() as usize) == ll
                    &&& Some(d.free_library_offset() as usize) == fl
                    &&& Some(d.get_last_error_offset() as usize) == gle
                }
            },
    {
        let exports = match parse_pe_exports(image) {
            Ok(v) => v,
            Err(_) => {
                return Err(LoadInjectHelpDataError::InvalidImage);
            },
        };
        proof {
            reveal_strlit("LoadLibraryW");
            reveal_strlit("FreeLibrary");
            reveal_strlit("GetLastError");
        }
        let ll = find_export_rva(&exports, &"LoadLibraryW".to_owned());
        let fl = find_export_rva(&exports, &"FreeLibrary".to_owned());
        let gle = find_export_rva(&exports, &"GetLastError".to_owned());
        match (ll, fl, gle) {
            (Some(a), Some(b), Some(c)) => {
                if a > u32::MAX as usize || b > u32::MAX as usize || c > u32::MAX as usize
                    || a > usize::MAX - module || b > usize::MAX - module || c > usize::MAX
                    - module {
                    return Err(LoadInjectHelpDataError::ExportNotFound);
                }
                Ok(
                    InjectHelpData {
                        kernel32_module: module,
                        load_library_offset: a as u32,
                        free_library_offset: b as u32,
                        get_last_error_offset: c as u32,
                    },
                )
            },
            _ => Err(LoadInjectHelpDataError::ExportNotFound),
        }
    }
}

} // verus!
