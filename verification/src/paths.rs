//! The directories that the tool works in, below the ones that the system assigns.

use vstd::prelude::*;
use vstd::string::*;

verus! {

/// The SHA-256 digest of a byte sequence.
pub uninterp spec fn sha256(data: Seq<u8>) -> Seq<u8>;

/// `Sha256::digest` of the `sha2` crate; the contract only names the digest.
#[verifier::external_body]
fn sha256_digest(data: &Vec<u8>) -> (r: Vec<u8>)
    ensures
        r@ == sha256(data@),
{
    <sha2::Sha256 as sha2::Digest>::digest(&data[..]).to_vec()
}

/// The hexadecimal digit for a value below sixteen, in lower case.
pub open spec fn hex_digit(d: nat) -> char {
    if d == 0 {
        '0'
    } else if d == 1 {
        '1'
    } else if d == 2 {
        '2'
    } else if d == 3 {
        '3'
    } else if d == 4 {
        '4'
    } else if d == 5 {
        '5'
    } else if d == 6 {
        '6'
    } else if d == 7 {
        '7'
    } else if d == 8 {
        '8'
    } else if d == 9 {
        '9'
    } else if d == 10 {
        'a'
    } else if d == 11 {
        'b'
    } else if d == 12 {
        'c'
    } else if d == 13 {
        'd'
    } else if d == 14 {
        'e'
    } else {
        'f'
    }
}

/// Two lower-case hexadecimal digits for each byte.
pub open spec fn hex(data: Seq<u8>) -> Seq<char>
    decreases data.len(),
{
    if data.len() == 0 {
        Seq::empty()
    } else {
        hex(data.drop_last()).push(hex_digit((data.last() / 16) as nat)).push(
            hex_digit((data.last() % 16) as nat),
        )
    }
}

/// Below `base`, the directory `name`.
pub open spec fn below(base: Seq<char>, name: Seq<char>) -> Seq<char> {
    base + "/"@ + name
}

fn hex_text(d: u8) -> (r: &'static str)
    requires
        d < 16,
    ensures
        r@ == seq![hex_digit(d as nat)],
{
    if d == 0 {
        proof {
            reveal_strlit("0");
            assert("0"@ =~= seq!['0']);
        }
        "0"
    } else if d == 1 {
        proof {
            reveal_strlit("1");
            assert("1"@ =~= seq!['1']);
        }
        "1"
    } else if d == 2 {
        proof {
            reveal_strlit("2");
            assert("2"@ =~= seq!['2']);
        }
        "2"
    } else if d == 3 {
        proof {
            reveal_strlit("3");
            assert("3"@ =~= seq!['3']);
        }
        "3"
    } else if d == 4 {
        proof {
            reveal_strlit("4");
            assert("4"@ =~= seq!['4']);
        }
        "4"
    } else if d == 5 {
        proof {
            reveal_strlit("5");
            assert("5"@ =~= seq!['5']);
        }
        "5"
    } else if d == 6 {
        proof {
            reveal_strlit("6");
            assert("6"@ =~= seq!['6']);
        }
        "6"
    } else if d == 7 {
        proof {
            reveal_strlit("7");
            assert("7"@ =~= seq!['7']);
        }
        "7"
    } else if d == 8 {
        proof {
            reveal_strlit("8");
            assert("8"@ =~= seq!['8']);
        }
        "8"
    } else if d == 9 {
        proof {
            reveal_strlit("9");
            assert("9"@ =~= seq!['9']);
        }
        "9"
    } else if d == 10 {
        proof {
            reveal_strlit("a");
            assert("a"@ =~= seq!['a']);
        }
        "a"
    } else if d == 11 {
        proof {
            reveal_strlit("b");
            assert("b"@ =~= seq!['b']);
        }
        "b"
    } else if d == 12 {
        proof {
            reveal_strlit("c");
            assert("c"@ =~= seq!['c']);
        }
        "c"
    } else if d == 13 {
        proof {
            reveal_strlit("d");
            assert("d"@ =~= seq!['d']);
        }
        "d"
    } else if d == 14 {
        proof {
            reveal_strlit("e");
            assert("e"@ =~= seq!['e']);
        }
        "e"
    } else {
        proof {
            reveal_strlit("f");
            assert("f"@ =~= seq!['f']);
        }
        "f"
    }
}

/// Writes bytes in lower-case hexadecimal.
pub fn to_hex(data: &Vec<u8>) -> (r: String)
    ensures
        r@ == hex(data@),
{
    let mut out = String::new();
    let mut i: usize = 0;
    while i < data.len()
        invariant
            i <= data@.len(),
            out@ == hex(data@.subrange(0, i as int)),
        decreases data@.len() - i,
    {
        proof {
            let next = data@.subrange(0, i + 1);
            assert(next.drop_last() =~= data@.subrange(0, i as int));
            assert(next.last() == data@[i as int]);
        }
        let byte: u8 = data[i];
        let ghost before = out@;
        out.append(hex_text(byte / 16));
        out.append(hex_text(byte % 16));
        proof {
            assert(out@ =~= before.push(hex_digit((byte / 16) as nat)).push(
                hex_digit((byte % 16) as nat),
            ));
        }
        i = i + 1;
    }
    proof {
        assert(data@.subrange(0, i as int) =~= data@);
    }
    out
}

fn join(base: &str, name: &str) -> (r: String)
    ensures
        r@ == below(base@, name@),
{
    let mut path = String::new();
    path.append(base);
    path.append("/");
    path.append(name);
    proof {
        assert(path@ =~= below(base@, name@));
    }
    path
}

/// The tool's configuration directory, below the system's.
pub fn config_dir(system_config_dir: &str) -> (r: String)
    ensures
        r@ == below(system_config_dir@, "typship"@),
{
    join(system_config_dir, "typship")
}

/// Where local packages are stored, below the system's data directory.
pub fn typst_local_dir(system_data_dir: &str) -> (r: String)
    ensures
        r@ == below(system_data_dir@, "typst/packages"@),
{
    join(system_data_dir, "typst/packages")
}

/// Where downloaded packages are cached, below the system's cache directory.
pub fn typst_cache_dir(system_cache_dir: &str) -> (r: String)
    ensures
        r@ == below(system_cache_dir@, "typst/packages"@),
{
    join(system_cache_dir, "typst/packages")
}

/// The tool's directory for temporary files, below the system's.
pub fn temp_dir(system_temp_dir: &str) -> (r: String)
    ensures
        r@ == below(system_temp_dir@, "typship"@),
{
    join(system_temp_dir, "typship")
}

/// The temporary directory for the work identified by `id`: named by the SHA-256 digest of
/// `id` in hexadecimal.
pub fn temp_subdir(system_temp_dir: &str, id: &str) -> (r: String)
    ensures
        r@ == below(below(system_temp_dir@, "typship"@), hex(sha256(id.spec_bytes()))),
{
    let base = temp_dir(system_temp_dir);
    let bytes = id.as_bytes_vec();
    let digest = sha256_digest(&bytes);
    let name = to_hex(&digest);
    join(base.as_str(), name.as_str())
}

} // verus!
