//! Limits, flag bits and status codes shared by the whole reader.

use vstd::prelude::*;

verus! {

/// Longest identifier, in bytes.
pub const MAX_IDENT_LEN: usize = 64;

/// Longest presentation selector, in bytes.
pub const MAX_PSEL_LEN: usize = 16;

/// Longest session selector, in bytes.
pub const MAX_SSEL_LEN: usize = 16;

/// Longest transport selector, in bytes.
pub const MAX_TSEL_LEN: usize = 32;

/// Most components an object identifier may have.
pub const MAX_OBJID_COMPONENTS: usize = 16;

/// Longest `valKind` text: Spec, Conf, RO or Set.
pub const MAX_VALKIND_LEN: usize = 4;

/// Length of a MAC address, in bytes.
pub const CLNP_MAX_LEN_MAC: usize = 6;

/// Longest common data class name.
pub const MAX_CDC_LEN: usize = 50;

/// Longest functional constraint name.
pub const MAX_FC_LEN: usize = 2;

/// Longest flattened leaf name: an identifier plus a bracketed five digit index.
pub const MAX_FLAT_LEN: usize = 71;

/// Longest report identifier of edition 1.
pub const MVL61850_MAX_RPTID_LEN: usize = 65;

/// Longest object reference.
pub const MVL61850_MAX_OBJREF_LEN: usize = 129;

/// The only parse mode: one device out of one document.
pub const SCL_PARSE_MODE_CID: u32 = 0;

/// Most element tables that may be open at once.
pub const SX_MAX_STACK_LEVEL: usize = 1000;

/// Most elements one table may list.
pub const SX_MAX_ITEMS_PER_TABLE: usize = 50;

/// Deepest element nesting that is accepted.
pub const SX_MAX_XML_NEST: usize = 30;

/// The handler runs when the element opens.
pub const SX_ELF_CSTART: u32 = 0x0001;

/// The handler runs when the element closes.
pub const SX_ELF_CEND: u32 = 0x0002;

/// The handler runs both when the element opens and when it closes.
pub const SX_ELF_CSTARTEND: u32 = 0x0003;

/// The element may occur more than once among its siblings.
pub const SX_ELF_RPT: u32 = 0x0008;

/// The element may be absent.
pub const SX_ELF_OPT: u32 = 0x0004;

/// The element may be absent and may repeat.
pub const SX_ELF_OPTRPT: u32 = 0x000C;

/// The element may be empty.
pub const SX_ELF_EMPTYOK: u32 = 0x0010;

pub const SX_PARSING_OK: u32 = 0;

pub const SX_USER_ERROR: u32 = 1;

pub const SX_STRUCT_NOT_FOUND: u32 = 2;

pub const SX_REQUIRED_TAG_NOT_FOUND: u32 = 3;

pub const SX_DUPLICATE_NOT_ALLOWED: u32 = 4;

pub const SX_EMPTY_TAG_NOT_ALLOWED: u32 = 5;

pub const SX_XML_NEST_TOO_DEEP: u32 = 6;

pub const SX_XML_BUFFER_OVER_MAX: u32 = 7;

pub const SX_XML_MALFORMED: u32 = 8;

pub const SX_FILE_NOT_FOUND: u32 = 9;

pub const SX_END_PARSING: u32 = 10;

pub const SX_ELEMENT_TBL_TOO_BIG: u32 = 11;

pub const SX_ERR_ATTR_NOT_FOUND: u32 = 12;

pub const SX_ERR_REQUIRED_ATTR_NOT_FOUND: u32 = 13;

pub const SX_ERR_ALLOC: u32 = 14;

/// A value could not be converted; the walk goes on.
pub const SX_ERR_CONVERT: u32 = 100;

pub const SD_TRUE: u32 = 1;

pub const SD_FALSE: u32 = 0;

pub const SD_SUCCESS: u32 = 0;

pub const SD_FAILURE: u32 = 1;

pub const SD_BIG_ENDIAN: u32 = 0;

pub const SD_LITTLE_ENDIAN: u32 = 1;

/// The handler is called for an opening tag.
pub const SX_ELEMENT_START: u32 = 1;

/// The handler is called for a closing tag.
pub const SX_ELEMENT_END: u32 = 2;

pub const SCL_ATTR_OPTIONAL: bool = false;

pub const SCL_ATTR_REQUIRED: bool = true;

/// `nameStructure="IEDName"`.
pub const SCL_NAMESTRUCTURE_IEDNAME: u32 = 0;

/// `nameStructure="FuncName"`.
pub const SCL_NAMESTRUCTURE_FUNCNAME: u32 = 1;

pub const TRGOPS_BITNUM_RESERVED: usize = 0;

pub const TRGOPS_BITNUM_DATA_CHANGE: usize = 1;

pub const TRGOPS_BITNUM_QUALITY_CHANGE: usize = 2;

pub const TRGOPS_BITNUM_DATA_UPDATE: usize = 3;

pub const TRGOPS_BITNUM_INTEGRITY: usize = 4;

pub const TRGOPS_BITNUM_GENERAL_INTERROGATION: usize = 5;

pub const OPTFLD_BITNUM_RESERVED: usize = 0;

pub const OPTFLD_BITNUM_SQNUM: usize = 1;

pub const OPTFLD_BITNUM_TIMESTAMP: usize = 2;

pub const OPTFLD_BITNUM_REASON: usize = 3;

pub const OPTFLD_BITNUM_DATSETNAME: usize = 4;

pub const OPTFLD_BITNUM_DATAREF: usize = 5;

pub const OPTFLD_BITNUM_BUFOVFL: usize = 6;

pub const OPTFLD_BITNUM_ENTRYID: usize = 7;

pub const OPTFLD_BITNUM_CONFREV: usize = 8;

pub const OPTFLD_BITNUM_SUBSEQNUM: usize = 9;

pub const SVOPT_BITNUM_REFRTM: usize = 0;

pub const SVOPT_BITNUM_SMPSYNCH: usize = 1;

pub const SVOPT_BITNUM_SMPRATE: usize = 2;

pub const SVOPT_BITNUM_DATSET: usize = 3;

pub const SVOPT_BITNUM_SECURITY: usize = 4;

/// The entry of a data object type describes a data attribute.
pub const SCL_OBJTYPE_DA: u32 = 0;

/// The entry of a data object type describes a sub data object.
pub const SCL_OBJTYPE_SDO: u32 = 1;

} // verus!
