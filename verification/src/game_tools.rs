//! What the front end reads from the path of a rom, and where it keeps save states.
use vstd::prelude::*;
use crate::error::ErrorHandle;
use crate::options::option_string_view;
use crate::paths::{join_path, joined_path};
use crate::text::{chars_of, push_all, push_char};

verus! {

/// The last component of a path, by the rules of the platform's paths.
pub uninterp spec fn path_file_name(path: Seq<char>) -> Option<Seq<char>>;

/// The index of the last `c` in `s`, or `-1` when `c` does not occur.
pub open spec fn last_index_of(s: Seq<char>, c: char) -> int
    decreases s.len(),
{
    if s.len() == 0 {
        -1
    } else if s.last() == c {
        s.len() - 1
    } else {
        last_index_of(s.drop_last(), c)
    }
}

/// The extension of a file name: what follows its last `.`, unless it has no `.` or its
/// only `.` begins it.
pub open spec fn name_extension(name: Seq<char>) -> Option<Seq<char>> {
    let i = last_index_of(name, '.');
    if i <= 0 {
        None
    } else {
        Some(name.subrange(i + 1, name.len() as int))
    }
}

/// The extension of a path: that of its last component, none without one.
pub open spec fn path_extension(path: Seq<char>) -> Option<Seq<char>> {
    match path_file_name(path) {
        None => None,
        Some(name) => name_extension(name),
    }
}

/// The last component of `path` (`Path::file_name` of std).
///
/// Trusted: the result is named `path_file_name` of the path; what std counts as the last
/// component is not stated.
#[verifier::external_body]
pub(crate) fn file_name_of(path: &str) -> (r: Option<String>)
    ensures
        option_string_view(r) == path_file_name(path@),
{
    match std::path::Path::new(path).file_name() {
        Some(s) => Some(s.to_string_lossy().into_owned()),
        None => None,
    }
}

/// The extension of `path` (`Path::extension` of std).
///
/// Trusted: std documents the extension as none without a file name, none for a file name
/// without a `.` or whose only `.` begins it, and otherwise the part of the file name after
/// its last `.`; the contract claims exactly that, over the file name `Path::file_name`
/// gives.
#[verifier::external_body]
pub(crate) fn extension_of(path: &str) -> (r: Option<String>)
    ensures
        option_string_view(r) == path_extension(path@),
{
    match std::path::Path::new(path).extension() {
        Some(s) => Some(s.to_string_lossy().into_owned()),
        None => None,
    }
}

/// `s` with every occurrence of `pat` taken out, scanning from the left and resuming after
/// each occurrence (what `str::replace(pat, "")` gives).
pub open spec fn remove_all(s: Seq<char>, pat: Seq<char>) -> Seq<char>
    decreases s.len(),
{
    if pat.len() == 0 || s.len() < pat.len() {
        s
    } else if s.take(pat.len() as int) == pat {
        remove_all(s.skip(pat.len() as int), pat)
    } else {
        seq![s[0]] + remove_all(s.drop_first(), pat)
    }
}

/// Whether `t` occurs in `s`.
pub open spec fn contains_seq(s: Seq<char>, t: Seq<char>) -> bool {
    exists|i: int| 0 <= i && i + t.len() <= s.len() && #[trigger] s.subrange(i, i + t.len()) == t
}

/// The decimal digit for `d` below ten.
pub open spec fn digit_char(d: nat) -> char {
    if d == 0 {
        '0'
    } else if d == 1 {
        '1'
    } else if d == 2 {
        '2'
    } else if d == 3 {
        '3'
    } else if d == 4 {
        '4'
    } else if d == 5 {
        '5'
    } else if d == 6 {
        '6'
    } else if d == 7 {
        '7'
    } else if d == 8 {
        '8'
    } else {
        '9'
    }
}

/// The decimal notation of `n`.
pub open spec fn decimal(n: nat) -> Seq<char>
    decreases n,
{
    if n < 10 {
        seq![digit_char(n)]
    } else {
        decimal(n / 10) + seq![digit_char(n % 10)]
    }
}

/// The decimal digit for `d` is the character `'0' + d`.
pub proof fn law_digit_chars(d: nat)
    requires
        d < 10,
    ensures
        digit_char(d) as int == 48 + d,
{
}

proof fn lemma_decimal_shape(n: nat)
    ensures
        decimal(n).len() >= 1,
        n < 10 ==> decimal(n).len() == 1,
        n >= 10 ==> decimal(n).len() >= 2,
        decimal(n).last() == digit_char(n % 10),
        n >= 10 ==> decimal(n).drop_last() == decimal(n / 10),
    decreases n,
{
    if n >= 10 {
        lemma_decimal_shape(n / 10);
        assert((decimal(n / 10) + seq![digit_char(n % 10)]).drop_last() =~= decimal(n / 10));
    }
}

/// Distinct numbers have distinct decimal notations, so distinct save slots get distinct
/// file names.
pub proof fn law_decimal_injective(a: nat, b: nat)
    ensures
        decimal(a) == decimal(b) ==> a == b,
        decimal(a) + ".save"@ == decimal(b) + ".save"@ ==> a == b,
    decreases a,
{
    lemma_decimal_shape(a);
    lemma_decimal_shape(b);
    if decimal(a) + ".save"@ == decimal(b) + ".save"@ {
        let x = decimal(a) + ".save"@;
        let y = decimal(b) + ".save"@;
        assert(x.len() == decimal(a).len() + ".save"@.len());
        assert(y.len() == decimal(b).len() + ".save"@.len());
        assert(x.len() == y.len());
        assert(decimal(a).len() == decimal(b).len());
        assert(decimal(a) =~= (decimal(a) + ".save"@).subrange(0, decimal(a).len() as int));
        assert(decimal(b) =~= (decimal(b) + ".save"@).subrange(0, decimal(b).len() as int));
        assert(decimal(a) == decimal(b));
    }
    if decimal(a) == decimal(b) {
        law_digit_chars(a % 10);
        law_digit_chars(b % 10);
        if a >= 10 && b >= 10 {
            law_decimal_injective(a / 10, b / 10);
        }
    }
}

/// Every sequence contains itself, and contains each sequence it starts or ends with.
pub proof fn law_contains_prefix_suffix(s: Seq<char>, t: Seq<char>)
    ensures
        contains_seq(s, s),
        contains_seq(s + t, s),
        contains_seq(s + t, t),
{
    assert(s.subrange(0, 0 + s.len() as int) =~= s);
    assert((s + t).subrange(0, 0 + s.len() as int) =~= s);
    assert((s + t).subrange(s.len() as int, s.len() as int + t.len() as int) =~= t);
}

fn digit(d: usize) -> (c: char)
    requires
        d < 10,
    ensures
        c == digit_char(d as nat),
{
    if d == 0 {
        '0'
    } else if d == 1 {
        '1'
    } else if d == 2 {
        '2'
    } else if d == 3 {
        '3'
    } else if d == 4 {
        '4'
    } else if d == 5 {
        '5'
    } else if d == 6 {
        '6'
    } else if d == 7 {
        '7'
    } else if d == 8 {
        '8'
    } else {
        '9'
    }
}

/// Appends the decimal notation of `n` to `s`.
pub fn push_decimal(s: &mut String, n: usize)
    ensures
        final(s)@ == old(s)@ + decimal(n as nat),
    decreases n,
{
    if n < 10 {
        push_char(s, digit(n));
        assert(old(s)@.push(digit_char(n as nat)) =~= old(s)@ + decimal(n as nat));
    } else {
        push_decimal(s, n / 10);
        push_char(s, digit(n % 10));
        assert(old(s)@ + decimal((n / 10) as nat) + seq![digit_char((n % 10) as nat)] =~= old(s)@
            + decimal(n as nat));
    }
}

/// Whether `pat` occurs in `cs` at `pos`.
fn matches_at(cs: &Vec<char>, pos: usize, pat: &Vec<char>) -> (r: bool)
    requires
        pos <= cs.len(),
    ensures
        r == (pos + pat.len() <= cs.len() && cs@.subrange(pos as int, pos + pat.len()) == pat@),
{
    if pat.len() > cs.len() - pos {
        return false;
    }
    let mut k: usize = 0;
    while k < pat.len()
        invariant
            pos + pat.len() <= cs.len(),
            k <= pat.len(),
            forall|j: int| 0 <= j < k ==> cs@[pos + j] == pat@[j],
        decreases pat.len() - k,
    {
        if cs[pos + k] != pat[k] {
            assert(cs@.subrange(pos as int, pos + pat.len())[k as int] != pat@[k as int]);
            return false;
        }
        k = k + 1;
    }
    assert(cs@.subrange(pos as int, pos + pat.len()) =~= pat@);
    true
}

/// `s` with every occurrence of `pat` taken out.
fn remove_all_exec(s: &str, pat: &str) -> (r: String)
    ensures
        r@ == remove_all(s@, pat@),
{
    let cs = chars_of(s);
    let ps = chars_of(pat);
    let mut out = String::new();
    if ps.len() == 0 {
        push_all(&mut out, s);
        assert(out@ =~= s@);
        return out;
    }
    let mut pos: usize = 0;
    assert(cs@.skip(0) =~= cs@);
    while pos < cs.len()
        invariant
            cs@ == s@,
            ps@ == pat@,
            ps.len() > 0,
            pos <= cs.len(),
            remove_all(s@, pat@) == out@ + remove_all(cs@.skip(pos as int), pat@),
        decreases cs.len() - pos,
    {
        let ghost rest = cs@.skip(pos as int);
        if matches_at(&cs, pos, &ps) {
            assert(rest.take(ps.len() as int) =~= cs@.subrange(pos as int, pos + ps.len()));
            assert(rest.skip(ps.len() as int) =~= cs@.skip(pos + ps.len()));
            pos = pos + ps.len();
        } else {
            proof {
                if rest.len() >= ps@.len() {
                    assert(rest.take(ps.len() as int) =~= cs@.subrange(pos as int, pos + ps.len()));
                }
            }
            let ghost before = out@;
            push_char(&mut out, cs[pos]);
            assert(rest.drop_first() =~= cs@.skip(pos + 1));
            proof {
                if rest.len() < ps@.len() {
                    assert(rest =~= seq![rest[0]] + rest.drop_first());
                    assert(remove_all(rest.drop_first(), pat@) == rest.drop_first());
                }
            }
            assert(out@ + remove_all(cs@.skip(pos + 1), pat@) =~= before + (seq![rest[0]] + remove_all(
                rest.drop_first(),
                pat@,
            )));
            pos = pos + 1;
        }
    }
    assert(remove_all(cs@.skip(pos as int), pat@) =~= seq![]);
    assert(out@ + seq![] =~= out@);
    out
}

/// Whether `t` occurs in `s`.
fn contains_exec(s: &str, t: &str) -> (r: bool)
    ensures
        r == contains_seq(s@, t@),
{
    let cs = chars_of(s);
    let ts = chars_of(t);
    let mut i: usize = 0;
    if ts.len() > cs.len() {
        return false;
    }
    if ts.len() == 0 {
        assert(s@.subrange(0, 0 + t@.len() as int) =~= t@);
        return true;
    }
    while i <= cs.len() - ts.len()
        invariant
            0 < ts.len() <= cs.len(),
            i <= cs.len() - ts.len() + 1,
            cs@ == s@,
            ts@ == t@,
            forall|j: int| 0 <= j < i && j + t@.len() <= s@.len() ==> #[trigger] s@.subrange(j, j + t@.len()) != t@,
        decreases cs.len() + 1 - i,
    {
        if matches_at(&cs, i, &ts) {
            return true;
        }
        i = i + 1;
    }
    false
}

/// Where a save state goes: the directory to create and the file to write.
#[derive(Debug)]
pub struct SavePath {
    pub dir: String,
    pub file: String,
}

/// Helpers for roms and save states.
pub struct RomTools;

impl RomTools {
    /// The name of the rom at `path`: its file name with every `.<extension>` taken out.
    pub fn get_rom_name(path: &str) -> (r: Result<String, ErrorHandle>)
        requires
            path_extension(path@) is Some,
        ensures
            r matches Ok(n) && n@ == remove_all(
                path_file_name(path@).unwrap(),
                seq!['.'] + path_extension(path@).unwrap(),
            ),
    {
        let ext = extension_of(path);
        let name = file_name_of(path);
        match (ext, name) {
            (Some(ext), Some(name)) => {
                let mut pat = String::new();
                push_char(&mut pat, '.');
                push_all(&mut pat, ext.as_str());
                assert(pat@ =~= seq!['.'] + ext@);
                Ok(remove_all_exec(name.as_str(), pat.as_str()))
            },
            _ => {
                assert(false);
                Err(ErrorHandle::new(""))
            },
        }
    }

    /// The name of the rom at `path`, or `None` for a path without an extension.
    pub fn rom_name_of_path(path: &str) -> (r: Option<String>)
        ensures
            match r {
                None => path_extension(path@) is None,
                Some(n) => path_extension(path@) is Some && n@ == remove_all(
                    path_file_name(path@).unwrap(),
                    seq!['.'] + path_extension(path@).unwrap(),
                ),
            },
    {
        match extension_of(path) {
            None => None,
            Some(_) => match Self::get_rom_name(path) {
                Ok(n) => Some(n),
                Err(_) => None,
            },
        }
    }

    /// Checks that the extension of the rom at `path` occurs in the core's list of
    /// extensions.
    pub fn valid_rom_extension(valid_extensions: &String, path: &str) -> (r: Result<(), ErrorHandle>)
        requires
            path_extension(path@) is Some,
        ensures
            r is Ok <==> contains_seq(valid_extensions@, path_extension(path@).unwrap()),
            r matches Err(e) ==> e.message@ == "Extensão da rom invalida: valores esperados -> "@
                + valid_extensions@ + "; valor recebido -> "@ + path_extension(path@).unwrap(),
    {
        match extension_of(path) {
            Some(ext) => {
                if contains_exec(valid_extensions.as_str(), ext.as_str()) {
                    Ok(())
                } else {
                    let mut message = String::new();
                    push_all(&mut message, "Extensão da rom invalida: valores esperados -> ");
                    push_all(&mut message, valid_extensions.as_str());
                    push_all(&mut message, "; valor recebido -> ");
                    push_all(&mut message, ext.as_str());
                    Err(ErrorHandle { message })
                }
            },
            None => {
                assert(false);
                Ok(())
            },
        }
    }

    /// The check of `valid_rom_extension` for any path: `None` for a path without an
    /// extension, which has nothing to check.
    pub fn rom_extension_check(valid_extensions: &String, path: &str) -> (r: Option<
        Result<(), ErrorHandle>,
    >)
        ensures
            r is None <==> path_extension(path@) is None,
            r matches Some(res) ==> (res is Ok <==> contains_seq(
                valid_extensions@,
                path_extension(path@).unwrap(),
            )),
            r matches Some(Err(e)) ==> e.message@ == "Extensão da rom invalida: valores esperados -> "@
                + valid_extensions@ + "; valor recebido -> "@ + path_extension(path@).unwrap(),
    {
        match extension_of(path) {
            None => None,
            Some(_) => Some(Self::valid_rom_extension(valid_extensions, path)),
        }
    }

    /// Where the state in `slot` of the rom `rom_name` goes:
    /// `<save_dir>/<library_name>/<rom_name>/<slot>.save`.
    pub fn get_save_path(save_dir: &str, library_name: &str, rom_name: &str, slot: usize) -> (r: SavePath)
        ensures
            r.dir@ == joined_path(joined_path(save_dir@, library_name@), rom_name@),
            r.file@ == joined_path(r.dir@, decimal(slot as nat) + ".save"@),
    {
        let lib_dir = join_path(save_dir, library_name);
        let dir = join_path(lib_dir.as_str(), rom_name);
        let mut file_name = String::new();
        push_decimal(&mut file_name, slot);
        push_all(&mut file_name, ".save");
        assert(file_name@ =~= decimal(slot as nat) + ".save"@);
        let file = join_path(dir.as_str(), file_name.as_str());
        SavePath { dir, file }
    }

    /// The outcome of asking the core for its state.
    pub fn check_serialized(ok: bool) -> (r: Result<(), ErrorHandle>)
        ensures
            r is Ok <==> ok,
            r matches Err(e) ==> e.message@ == "nao foi possível salva o estado atual"@,
    {
        if ok {
            Ok(())
        } else {
            Err(ErrorHandle::new("nao foi possível salva o estado atual"))
        }
    }

    /// A saved state fits the core only when it has the size the core asks for.
    pub fn check_state_size(buffer_size: usize, core_expect_size: usize) -> (r: Result<(), ErrorHandle>)
        ensures
            r is Ok <==> buffer_size == core_expect_size,
            r matches Err(e) ==> e.message@ == "o state escolhido nao e correspondente ao core"@,
    {
        if buffer_size != core_expect_size {
            Err(ErrorHandle::new("o state escolhido nao e correspondente ao core"))
        } else {
            Ok(())
        }
    }

    /// The outcome of handing a saved state to the core.
    pub fn check_unserialized(ok: bool) -> (r: Result<(), ErrorHandle>)
        ensures
            r is Ok <==> ok,
            r matches Err(e) ==> e.message@ == "o core nao pode carregar o state escolhido"@,
    {
        if ok {
            Ok(())
        } else {
            Err(ErrorHandle::new("o core nao pode carregar o state escolhido"))
        }
    }
}

} // verus!
