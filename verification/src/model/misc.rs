//! Small types shared by several objects.

use vstd::prelude::*;
use vstd::string::StringExecFns;

verus! {

/// The hash under which an image is stored on the CDN.
#[derive(Clone, Copy, Debug, PartialEq, Eq, Hash)]
pub struct ImageHash {
    pub hash: [u8; 16],
    pub is_animated: bool,
}

/// The character of a hexadecimal digit, in lower case.
pub open spec fn hex_lower(d: nat) -> char {
    if d < 10 {
        (0x30 + d) as u8 as char
    } else {
        (0x57 + d) as u8 as char
    }
}

/// Bytes in hexadecimal, two lower-case digits each.
pub open spec fn hex_text(bytes: Seq<u8>) -> Seq<char>
    decreases bytes.len(),
{
    if bytes.len() == 0 {
        Seq::empty()
    } else {
        hex_text(bytes.drop_last()).push(hex_lower((bytes.last() / 16) as nat)).push(
            hex_lower((bytes.last() % 16) as nat),
        )
    }
}

fn hex_digit(d: u8) -> (s: &'static str)
    requires
        d < 16,
    ensures
        s@ == seq![hex_lower(d as nat)],
{
    proof {
        reveal_strlit("0");
        reveal_strlit("1");
        reveal_strlit("2");
        reveal_strlit("3");
        reveal_strlit("4");
        reveal_strlit("5");
        reveal_strlit("6");
        reveal_strlit("7");
        reveal_strlit("8");
        reveal_strlit("9");
        reveal_strlit("a");
        reveal_strlit("b");
        reveal_strlit("c");
        reveal_strlit("d");
        reveal_strlit("e");
        reveal_strlit("f");
    }
    let s = match d {
        0 => "0",
        1 => "1",
        2 => "2",
        3 => "3",
        4 => "4",
        5 => "5",
        6 => "6",
        7 => "7",
        8 => "8",
        9 => "9",
        10 => "a",
        11 => "b",
        12 => "c",
        13 => "d",
        14 => "e",
        _ => "f",
    };
    assert(s@ =~= seq![hex_lower(d as nat)]);
    s
}

impl ImageHash {
    /// Whether the image is animated.
    pub fn is_animated(&self) -> (r: bool)
        ensures
            r == self.is_animated,
    {
        self.is_animated
    }

    /// The hash as it stands in an address: `a_` if the image is animated,
    /// then the sixteen bytes in hexadecimal.
    pub open spec fn text(self) -> Seq<char> {
        (if self.is_animated {
            "a_"@
        } else {
            Seq::empty()
        }) + hex_text(self.hash@)
    }

    /// Writes the hash as it stands in an address.
    pub fn to_text(&self) -> (s: String)
        ensures
            s@ == self.text(),
    {
        let mut s = if self.is_animated {
            String::from_str("a_")
        } else {
            String::new()
        };
        let ghost prefix = s@;
        let mut i: usize = 0;
        while i < 16
            invariant
                0 <= i <= 16,
                s@ == prefix + hex_text(self.hash@.subrange(0, i as int)),
            decreases 16 - i,
        {
            let b: u8 = self.hash[i];
            proof {
                let next = self.hash@.subrange(0, i + 1);
                assert(next.drop_last() =~= self.hash@.subrange(0, i as int));
                assert(next.last() == b);
            }
            let ghost before = s@;
            s.append(hex_digit(b / 16));
            s.append(hex_digit(b % 16));
            assert(s@ =~= prefix + hex_text(self.hash@.subrange(0, i + 1)));
            i += 1;
        }
        assert(self.hash@.subrange(0, 16) =~= self.hash@);
        s
    }
}

} // verus!
