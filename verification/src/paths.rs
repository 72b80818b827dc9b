//! Asset path rules: only files under the `assets` directory may be spawned,
//! level objects are recognised by a name prefix, and spawned instances are
//! numbered in decimal.

use vstd::prelude::*;

verus! {

/// What remains of a path, split into components, after the first `assets`
/// component; nothing when no component is `assets`.
pub open spec fn spec_strip_assets_prefix(components: Seq<String>) -> Option<Seq<String>>
    decreases components.len(),
{
    if components.len() == 0 {
        None
    } else if components[0]@ == "assets"@ {
        Some(components.skip(1))
    } else {
        spec_strip_assets_prefix(components.skip(1))
    }
}

/// Keeps only the path components after the first `assets` component, the
/// part the asset server can address; a path outside the assets directory is
/// rejected.
pub fn strip_assets_prefix(components: &Vec<String>) -> (r: Option<Vec<String>>)
    ensures
        match r {
            Some(rest) => spec_strip_assets_prefix(components@) == Some(rest@),
            None => spec_strip_assets_prefix(components@) is None,
        },
{
    let assets: String = "assets".to_owned();
    let n = components.len();
    let mut i: usize = 0;
    proof {
        assert(components@.skip(0) =~= components@);
    }
    while i < n
        invariant
            i <= n,
            n == components@.len(),
            assets@ == "assets"@,
            spec_strip_assets_prefix(components@) == spec_strip_assets_prefix(
                components@.skip(i as int),
            ),
        decreases n - i,
    {
        proof {
            assert(components@.skip(i as int)[0] == components@[i as int]);
        }
        if components[i].eq(&assets) {
            let mut rest: Vec<String> = Vec::new();
            let mut j: usize = i + 1;
            while j < n
                invariant
                    i + 1 <= j <= n,
                    n == components@.len(),
                    rest@ == components@.subrange(i + 1, j as int),
                decreases n - j,
            {
                let piece = components[j].clone();
                rest.push(piece);
                proof {
                    assert(components@.subrange(i + 1, j + 1) =~= components@.subrange(
                        i + 1,
                        j as int,
                    ).push(components@[j as int]));
                }
                j = j + 1;
            }
            proof {
                assert(components@.subrange(i + 1, n as int) =~= components@.skip(i as int).skip(
                    1,
                ));
            }
            return Some(rest);
        }
        proof {
            assert(components@.skip(i as int).skip(1) =~= components@.skip(i as int + 1));
        }
        i = i + 1;
    }
    proof {
        assert(components@.skip(n as int) =~= Seq::<String>::empty());
    }
    None
}

/// A scene node names a level object when it carries this prefix.
pub open spec fn has_level_object_prefix(name: Seq<char>) -> bool {
    name.len() >= 7 && name.subrange(0, 7) == "LvlObj."@
}

/// The asset file a level object's node name points at.
pub open spec fn spec_level_object_asset_path(name: Seq<char>) -> Seq<char> {
    "models/"@ + name.skip(7) + ".glb"@
}

/// Recognises a `LvlObj.`-prefixed node name and returns the model file to
/// spawn for it; other names are not level objects.
pub fn level_object_asset_path(name: &str) -> (r: Option<String>)
    ensures
        match r {
            Some(path) => has_level_object_prefix(name@) && path@ == spec_level_object_asset_path(
                name@,
            ),
            None => !has_level_object_prefix(name@),
        },
{
    proof {
        reveal_strlit("LvlObj.");
    }
    let prefix: &str = "LvlObj.";
    let n = name.unicode_len();
    if n < 7 {
        return None;
    }
    let mut i: usize = 0;
    while i < 7
        invariant
            i <= 7,
            n == name@.len(),
            n >= 7,
            prefix@ == "LvlObj."@,
            prefix@.len() == 7,
            forall|k: int| 0 <= k < i ==> name@[k] == "LvlObj."@[k],
        decreases 7 - i,
    {
        proof {
            reveal_strlit("LvlObj.");
        }
        if name.get_char(i) != prefix.get_char(i) {
            proof {
                assert(name@.subrange(0, 7)[i as int] != "LvlObj."@[i as int]);
            }
            return None;
        }
        i = i + 1;
    }
    proof {
        assert(name@.subrange(0, 7) =~= "LvlObj."@);
    }
    let model_name = name.substring_char(7, n);
    let mut path: String = "models/".to_owned();
    path.append(model_name);
    path.append(".glb");
    proof {
        assert(name@.subrange(7, n as int) =~= name@.skip(7));
    }
    Some(path)
}

/// The decimal digit characters of `n`, most significant first.
pub open spec fn spec_decimal_digits(n: nat) -> Seq<char>
    decreases n,
{
    if n < 10 {
        seq![spec_digit_char(n)]
    } else {
        spec_decimal_digits(n / 10) + seq![spec_digit_char(n % 10)]
    }
}

/// The character for one decimal digit.
pub open spec fn spec_digit_char(d: nat) -> char {
    if d == 0 {
        '0'
    } else if d == 1 {
        '1'
    } else if d == 2 {
        '2'
    } else if d == 3 {
        '3'
    } else if d == 4 {
        '4'
    } else if d == 5 {
        '5'
    } else if d == 6 {
        '6'
    } else if d == 7 {
        '7'
    } else if d == 8 {
        '8'
    } else {
        '9'
    }
}

/// One decimal digit as a string slice.
fn digit_str(d: usize) -> (r: &'static str)
    requires
        d < 10,
    ensures
        r@ == seq![spec_digit_char(d as nat)],
{
    proof {
        reveal_strlit("0");
        reveal_strlit("1");
        reveal_strlit("2");
        reveal_strlit("3");
        reveal_strlit("4");
        reveal_strlit("5");
        reveal_strlit("6");
        reveal_strlit("7");
        reveal_strlit("8");
        reveal_strlit("9");
    }
    let r: &'static str = if d == 0 {
        "0"
    } else if d == 1 {
        "1"
    } else if d == 2 {
        "2"
    } else if d == 3 {
        "3"
    } else if d == 4 {
        "4"
    } else if d == 5 {
        "5"
    } else if d == 6 {
        "6"
    } else if d == 7 {
        "7"
    } else if d == 8 {
        "8"
    } else {
        "9"
    };
    proof {
        assert(r@ =~= seq![spec_digit_char(d as nat)]);
    }
    r
}

/// Renders `n` in decimal, as the instance-naming scheme needs.
pub fn decimal_string(n: usize) -> (r: String)
    ensures
        r@ == spec_decimal_digits(n as nat),
    decreases n,
{
    if n < 10 {
        let r: String = digit_str(n).to_owned();
        r
    } else {
        proof {
            assert(n / 10 < n) by (nonlinear_arith)
                requires
                    n >= 10,
            ;
        }
        let mut r = decimal_string(n / 10);
        r.append(digit_str(n % 10));
        proof {
            assert((n % 10) < 10) by (nonlinear_arith);
        }
        r
    }
}

} // verus!
