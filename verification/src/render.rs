//! Human-readable rendering of socket addresses.
//!
//! An address renders as `(unnamed)`, as a quoted name followed by
//! ` (abstract)`, or as a quoted path followed by ` (pathname)`.  The
//! quoted bytes are escaped with the standard ASCII convention: named
//! escapes for the control and quoting characters, printable bytes as
//! themselves, and a lowercase hexadecimal escape for everything else.

use vstd::prelude::*;

use crate::addr::AddressKind;
use crate::addr::SocketAddr;
use crate::addr::ABSTRACT_NAMESPACE;
use crate::addr::SUN_PATH_OFFSET;
use crate::addr::spec_abstract_of;
use crate::addr::spec_kind_of;
use crate::addr::spec_pathname_of;

verus! {

/// The byte of the lowercase hexadecimal digit `x`.
pub open spec fn spec_hex_digit(x: u8) -> u8 {
    if x < 10 {
        (x + 48) as u8
    } else {
        (x + 87) as u8
    }
}

/// The standard ASCII escape of one byte.
pub open spec fn spec_escape_byte(b: u8) -> Seq<u8> {
    if b == 9 {  // tab
        seq![92u8, 116u8]
    } else if b == 13 {  // carriage return
        seq![92u8, 114u8]
    } else if b == 10 {  // line feed
        seq![92u8, 110u8]
    } else if b == 92 {  // backslash
        seq![92u8, 92u8]
    } else if b == 39 {  // single quote
        seq![92u8, 39u8]
    } else if b == 34 {  // double quote
        seq![92u8, 34u8]
    } else if 32 <= b && b <= 126 {
        seq![b]
    } else {
        seq![92u8, 120u8, spec_hex_digit(b / 16), spec_hex_digit(b % 16)]
    }
}

/// A byte string escaped byte for byte.
pub open spec fn spec_escaped(s: Seq<u8>) -> Seq<u8>
    decreases s.len(),
{
    if s.len() == 0 {
        Seq::empty()
    } else {
        spec_escape_byte(s[0]) + spec_escaped(s.subrange(1, s.len() as int))
    }
}

/// Escaping distributes over appending one byte at the end.
pub proof fn lemma_escaped_push(s: Seq<u8>, b: u8)
    ensures
        spec_escaped(s.push(b)) == spec_escaped(s) + spec_escape_byte(b),
    decreases s.len(),
{
    reveal_with_fuel(spec_escaped, 3);
    if s.len() == 0 {
        assert(s.push(b)[0] == b);
        assert(s.push(b).subrange(1, s.push(b).len() as int) =~= Seq::<u8>::empty());
        assert(spec_escaped(s.push(b)) =~= spec_escaped(s) + spec_escape_byte(b));
    } else {
        let t = s.subrange(1, s.len() as int);
        lemma_escaped_push(t, b);
        assert(s.push(b)[0] == s[0]);
        assert(s.push(b).subrange(1, s.push(b).len() as int) =~= t.push(b));
        assert(spec_escaped(s.push(b)) =~= spec_escaped(s) + spec_escape_byte(b));
    }
}

/// The rendering of an unnamed address.
pub open spec fn spec_unnamed_text() -> Seq<u8> {
    seq![40u8, 117u8, 110u8, 110u8, 97u8, 109u8, 101u8, 100u8, 41u8]
}

/// The closing quote and kind tag of an abstract rendering.
pub open spec fn spec_abstract_tag() -> Seq<u8> {
    seq![34u8, 32u8, 40u8, 97u8, 98u8, 115u8, 116u8, 114u8, 97u8, 99u8, 116u8, 41u8]
}

/// The closing quote and kind tag of a pathname rendering.
pub open spec fn spec_pathname_tag() -> Seq<u8> {
    seq![34u8, 32u8, 40u8, 112u8, 97u8, 116u8, 104u8, 110u8, 97u8, 109u8, 101u8, 41u8]
}

/// The debug rendering of an address on this platform.
pub open spec fn spec_render(path: Seq<u8>, len: int) -> Seq<u8> {
    if spec_kind_of(path, len, ABSTRACT_NAMESPACE) == AddressKind::Unnamed {
        spec_unnamed_text()
    } else if spec_kind_of(path, len, ABSTRACT_NAMESPACE) == AddressKind::Abstract {
        seq![34u8] + spec_escaped(spec_abstract_of(path, len)) + spec_abstract_tag()
    } else {
        seq![34u8] + spec_escaped(spec_pathname_of(path, len)) + spec_pathname_tag()
    }
}

/// The lowercase hexadecimal digit of `x`.
fn hex_digit(x: u8) -> (r: u8)
    requires
        x < 16,
    ensures
        r == spec_hex_digit(x),
{
    if x < 10 {
        x + 48
    } else {
        x + 87
    }
}

/// Appends the standard ASCII escape of `b`.
fn push_escaped(out: &mut Vec<u8>, b: u8)
    ensures
        final(out)@ == old(out)@ + spec_escape_byte(b),
{
    if b == 9 {  // tab
        out.push(92);
        out.push(116);
    } else if b == 13 {  // carriage return
        out.push(92);
        out.push(114);
    } else if b == 10 {  // line feed
        out.push(92);
        out.push(110);
    } else if b == 92 {  // backslash
        out.push(92);
        out.push(92);
    } else if b == 39 {  // single quote
        out.push(92);
        out.push(39);
    } else if b == 34 {  // double quote
        out.push(92);
        out.push(34);
    } else if 32 <= b && b <= 126 {
        out.push(b);
    } else {
        out.push(92);
        out.push(120);
        out.push(hex_digit(b / 16));
        out.push(hex_digit(b % 16));
    }
    assert(out@ =~= old(out)@ + spec_escape_byte(b));
}

impl SocketAddr {
    /// Renders this address in its human debug form: `(unnamed)`, a
    /// quoted escaped name with ` (abstract)`, or a quoted escaped path
    /// with ` (pathname)`.
    pub fn render(&self) -> (r: Vec<u8>)
        ensures
            r@ == spec_render(self.spec_path(), self.spec_len()),
    {
        let k = self.address_kind(ABSTRACT_NAMESPACE);
        let mut out: Vec<u8> = Vec::new();
        if k == AddressKind::Unnamed {
            out.push(40);
            out.push(117);
            out.push(110);
            out.push(110);
            out.push(97);
            out.push(109);
            out.push(101);
            out.push(100);
            out.push(41);
            assert(out@ =~= spec_unnamed_text());
        } else if k == AddressKind::Abstract {
            let path = self.raw_path();
            let plen = self.raw_len() - SUN_PATH_OFFSET;
            out.push(34);
            assert(out@ =~= seq![34u8] + spec_escaped(self.spec_path().subrange(1, 1)));
            let mut i: usize = 1;
            while i < plen
                invariant
                    k == spec_kind_of(self.spec_path(), self.spec_len(), ABSTRACT_NAMESPACE),
                    k == AddressKind::Abstract,
                    path@ == self.spec_path(),
                    path@.len() >= plen,
                    plen == self.spec_len() - SUN_PATH_OFFSET,
                    1 <= i <= plen,
                    out@ == seq![34u8] + spec_escaped(self.spec_path().subrange(1, i as int)),
                decreases plen - i,
            {
                push_escaped(&mut out, path[i]);
                proof {
                    lemma_escaped_push(self.spec_path().subrange(1, i as int), path@[i as int]);
                    assert(self.spec_path().subrange(1, i as int + 1) =~= self.spec_path()
                        .subrange(1, i as int).push(path@[i as int]));
                }
                i = i + 1;
            }
            assert(out@ == seq![34u8] + spec_escaped(
                spec_abstract_of(self.spec_path(), self.spec_len()),
            ));
            out.push(34);
            out.push(32);
            out.push(40);
            out.push(97);
            out.push(98);
            out.push(115);
            out.push(116);
            out.push(114);
            out.push(97);
            out.push(99);
            out.push(116);
            out.push(41);
            assert(out@ =~= seq![34u8] + spec_escaped(
                spec_abstract_of(self.spec_path(), self.spec_len()),
            ) + spec_abstract_tag());
        } else {
            let path = self.raw_path();
            let plen = self.raw_len() - SUN_PATH_OFFSET;
            out.push(34);
            assert(out@ =~= seq![34u8] + spec_escaped(self.spec_path().subrange(0, 0)));
            let mut i: usize = 0;
            while i < plen - 1
                invariant
                    k == spec_kind_of(self.spec_path(), self.spec_len(), ABSTRACT_NAMESPACE),
                    k == AddressKind::Pathname,
                    path@ == self.spec_path(),
                    path@.len() >= plen,
                    1 <= plen,
                    plen == self.spec_len() - SUN_PATH_OFFSET,
                    0 <= i <= plen - 1,
                    out@ == seq![34u8] + spec_escaped(self.spec_path().subrange(0, i as int)),
                decreases plen - 1 - i,
            {
                push_escaped(&mut out, path[i]);
                proof {
                    lemma_escaped_push(self.spec_path().subrange(0, i as int), path@[i as int]);
                    assert(self.spec_path().subrange(0, i as int + 1) =~= self.spec_path()
                        .subrange(0, i as int).push(path@[i as int]));
                }
                i = i + 1;
            }
            assert(out@ == seq![34u8] + spec_escaped(
                spec_pathname_of(self.spec_path(), self.spec_len()),
            ));
            out.push(34);
            out.push(32);
            out.push(40);
            out.push(112);
            out.push(97);
            out.push(116);
            out.push(104);
            out.push(110);
            out.push(97);
            out.push(109);
            out.push(101);
            out.push(41);
            assert(out@ =~= seq![34u8] + spec_escaped(
                spec_pathname_of(self.spec_path(), self.spec_len()),
            ) + spec_pathname_tag());
        }
        out
    }
}

} // verus!
