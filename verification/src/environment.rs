//! The encoding of the environment a script will run in.

use crate::encoding_detector::EncodingDetector;
use crate::text::{contains_bytes, contains_run, is_valid_utf8};
use vstd::prelude::*;
use vstd::utf8::valid_utf8;

verus! {

/// The digits that a console prints for the code page of simplified Chinese.
pub open spec fn code_page_gbk() -> Seq<u8> {
    seq![0x39u8, 0x33u8, 0x36u8]
}

/// The digits that a console prints for the code page of UTF-8.
pub open spec fn code_page_utf8() -> Seq<u8> {
    seq![0x36u8, 0x35u8, 0x30u8, 0x30u8, 0x31u8]
}

/// The digits that a console prints for the code page of traditional Chinese.
pub open spec fn code_page_big5() -> Seq<u8> {
    seq![0x39u8, 0x35u8, 0x30u8]
}

/// The encoding of the environment, read from what its console reported of
/// its active code page.
///
/// `None` stands for an environment without such a console, which is taken to
/// use UTF-8. A report is searched for the digits of the known code pages, in
/// the order 936, 65001, 950; a report that is not text, or that names none
/// of them, means GBK.
pub open spec fn system_encoding_name(report: Option<Seq<u8>>) -> Seq<char> {
    match report {
        None => "utf-8"@,
        Some(out) => {
            if !valid_utf8(out) {
                "gbk"@
            } else if contains_run(out, code_page_gbk()) {
                "gbk"@
            } else if contains_run(out, code_page_utf8()) {
                "utf-8"@
            } else if contains_run(out, code_page_big5()) {
                "big5"@
            } else {
                "gbk"@
            }
        },
    }
}

/// A console report, if there is one, as plain values.
pub open spec fn report_bytes(report: Option<&[u8]>) -> Option<Seq<u8>> {
    match report {
        Some(out) => Some(out@),
        None => None,
    }
}

impl EncodingDetector {
    /// Names the encoding of the environment from what its console reported
    /// of its active code page, `None` standing for an environment that has
    /// no such console.
    pub fn get_system_encoding(&self, report: Option<&[u8]>) -> (name: String)
        ensures
            name@ == system_encoding_name(report_bytes(report)),
    {
        match report {
            None => "utf-8".to_owned(),
            Some(out) => {
                let gbk: [u8; 3] = [0x39, 0x33, 0x36];
                let utf8: [u8; 5] = [0x36, 0x35, 0x30, 0x30, 0x31];
                let big5: [u8; 3] = [0x39, 0x35, 0x30];
                assert(gbk@ =~= code_page_gbk());
                assert(utf8@ =~= code_page_utf8());
                assert(big5@ =~= code_page_big5());
                if !is_valid_utf8(out) {
                    "gbk".to_owned()
                } else if contains_bytes(out, gbk.as_slice()) {
                    "gbk".to_owned()
                } else if contains_bytes(out, utf8.as_slice()) {
                    "utf-8".to_owned()
                } else if contains_bytes(out, big5.as_slice()) {
                    "big5".to_owned()
                } else {
                    "gbk".to_owned()
                }
            },
        }
    }
}

} // verus!
