//! The pretrained weight table: the model's bias and, for every named
//! feature, the learned weight of each key that occurs in the model.
//!
//! Every function here is a lookup into fixed, pretrained data: a key that
//! the model holds maps to its learned weight, every other key to 0.  The
//! numbers are the model itself; nothing in them is meant to be edited.
//! Each lookup comes as a spec function and an executable twin proved to
//! return the same value.

use vstd::prelude::*;

use crate::types::Category;
use crate::types::Elem;
use crate::types::PrevTag;

verus! {

/// The score every candidate boundary starts from.
pub const BIAS: i32 = -332;


#[verifier::opaque]
pub open spec fn spec_up1(a: PrevTag) -> int {
    match a {
        PrevTag::NoBoundary => -214,
        _ => 0,
    }
}

pub fn up1(a: PrevTag) -> (r: i32)
    ensures
        r as int == spec_up1(a),
{
    proof {
        reveal(spec_up1);
    }
    match a {
        PrevTag::NoBoundary => -214,
        _ => 0,
    }
}


#[verifier::opaque]
pub open spec fn spec_up2(a: PrevTag) -> int {
    match a {
        PrevTag::Boundary => 69,
        PrevTag::NoBoundary => 935,
        _ => 0,
    }
}

pub fn up2(a: PrevTag) -> (r: i32)
    ensures
        r as int == spec_up2(a),
{
    proof {
        reveal(spec_up2);
    }
    match a {
        PrevTag::Boundary => 69,
        PrevTag::NoBoundary => 935,
        _ => 0,
    }
}


#[verifier::opaque]
pub open spec fn spec_up3(a: PrevTag) -> int {
    match a {
        PrevTag::Boundary => 189,
        _ => 0,
    }
}

pub fn up3(a: PrevTag) -> (r: i32)
    ensures
        r as int == spec_up3(a),
{
    proof {
        reveal(spec_up3);
    }
    match a {
        PrevTag::Boundary => 189,
        _ => 0,
    }
}


#[verifier::opaque]
pub open spec fn spec_bp1(a: PrevTag, b: PrevTag) -> int {
    match (a, b) {
        (PrevTag::Boundary, PrevTag::Boundary) => 295,
        (PrevTag::NoBoundary, PrevTag::Boundary) => 304,
        (PrevTag::NoBoundary, PrevTag::NoBoundary) => -125,
        (PrevTag::Unknown, PrevTag::Boundary) => 352,
        _ => 0,
    }
}

pub fn bp1(a: PrevTag, b: PrevTag) -> (r: i32)
    ensures
        r as int == spec_bp1(a, b),
{
    proof {
        reveal(spec_bp1);
    }
    match (a, b) {
        (PrevTag::Boundary, PrevTag::Boundary) => 295,
        (PrevTag::NoBoundary, PrevTag::Boundary) => 304,
        (PrevTag::NoBoundary, PrevTag::NoBoundary) => -125,
        (PrevTag::Unknown, PrevTag::Boundary) => 352,
        _ => 0,
    }
}


#[verifier::opaque]
pub open spec fn spec_bp2(a: PrevTag, b: PrevTag) -> int {
    match (a, b) {
        (PrevTag::Boundary, PrevTag::NoBoundary) => 60,
        (PrevTag::NoBoundary, PrevTag::NoBoundary) => -1762,
        _ => 0,
    }
}

pub fn bp2(a: PrevTag, b: PrevTag) -> (r: i32)
    ensures
        r as int == spec_bp2(a, b),
{
    proof {
        reveal(spec_bp2);
    }
    match (a, b) {
        (PrevTag::Boundary, PrevTag::NoBoundary) => 60,
        (PrevTag::NoBoundary, PrevTag::NoBoundary) => -1762,
        _ => 0,
    }
}


#[verifier::opaque]
pub open spec fn spec_uw1(a: Elem) -> int {
    match a {
        Elem::Ch(a) => {
            if a == '\u{002C}' {
                156
            } else if a == '\u{3001}' {
                156
            } else if a == '\u{300C}' {
                -463
            } else if a == '\u{3042}' {
                -941
            } else if a == '\u{3046}' {
                -127
            } else if a == '\u{304C}' {
                -553
            } else if a == '\u{304D}' {
                121
            } else if a == '\u{3053}' {
                505
            } else if a == '\u{3067}' {
                -201
            } else if a == '\u{3068}' {
                -547
            } else if a == '\u{3069}' {
                -123
            } else if a == '\u{306B}' {
                -789
            } else if a == '\u{306E}' {
                -185
            } else if a == '\u{306F}' {
                -847
            } else if a == '\u{3082}' {
                -466
            } else if a == '\u{3084}' {
                -470
            } else if a == '\u{3088}' {
                182
            } else if a == '\u{3089}' {
                -292
            } else if a == '\u{308A}' {
                208
            } else if a == '\u{308C}' {
                169
            } else if a == '\u{3092}' {
                -446
            } else if a == '\u{3093}' {
                -137
            } else if a == '\u{30FB}' {
                -135
            } else if a == '\u{4E3B}' {
                -402
            } else if a == '\u{4EAC}' {
                -268
            } else if a == '\u{533A}' {
                -912
            } else if a == '\u{5348}' {
                871
            } else if a == '\u{56FD}' {
                -460
            } else if a == '\u{5927}' {
                561
            } else if a == '\u{59D4}' {
                729
            } else if a == '\u{5E02}' {
                -411
            } else if a == '\u{65E5}' {
                -141
            } else if a == '\u{7406}' {
                361
            } else if a == '\u{751F}' {
                -408
            } else if a == '\u{770C}' {
                -386
            } else if a == '\u{90FD}' {
                -718
            } else if a == '\u{FF62}' {
                -463
            } else if a == '\u{FF65}' {
                -135
            } else {
                0
            }
        },
        _ => 0,
    }
}

pub fn uw1(a: Elem) -> (r: i32)
    ensures
        r as int == spec_uw1(a),
{
    proof {
        reveal(spec_uw1);
    }
    match a {
        Elem::Ch(a) => {
            if a == '\u{002C}' {
                156
            } else if a == '\u{3001}' {
                156
            } else if a == '\u{300C}' {
                -463
            } else if a == '\u{3042}' {
                -941
            } else if a == '\u{3046}' {
                -127
            } else if a == '\u{304C}' {
                -553
            } else if a == '\u{304D}' {
                121
            } else if a == '\u{3053}' {
                505
            } else if a == '\u{3067}' {
                -201
            } else if a == '\u{3068}' {
                -547
            } else if a == '\u{3069}' {
                -123
            } else if a == '\u{306B}' {
                -789
            } else if a == '\u{306E}' {
                -185
            } else if a == '\u{306F}' {
                -847
            } else if a == '\u{3082}' {
                -466
            } else if a == '\u{3084}' {
                -470
            } else if a == '\u{3088}' {
                182
            } else if a == '\u{3089}' {
                -292
            } else if a == '\u{308A}' {
                208
            } else if a == '\u{308C}' {
                169
            } else if a == '\u{3092}' {
                -446
            } else if a == '\u{3093}' {
                -137
            } else if a == '\u{30FB}' {
                -135
            } else if a == '\u{4E3B}' {
                -402
            } else if a == '\u{4EAC}' {
                -268
            } else if a == '\u{533A}' {
                -912
            } else if a == '\u{5348}' {
                871
            } else if a == '\u{56FD}' {
                -460
            } else if a == '\u{5927}' {
                561
            } else if a == '\u{59D4}' {
                729
            } else if a == '\u{5E02}' {
                -411
            } else if a == '\u{65E5}' {
                -141
            } else if a == '\u{7406}' {
                361
            } else if a == '\u{751F}' {
                -408
            } else if a == '\u{770C}' {
                -386
            } else if a == '\u{90FD}' {
                -718
            } else if a == '\u{FF62}' {
                -463
            } else if a == '\u{FF65}' {
                -135
            } else {
                0
            }
        },
        _ => 0,
    }
}


#[verifier::opaque]
pub open spec fn spec_uw2(a: Elem) -> int {
    match a {
        Elem::Ch(a) => {
            if a == '\u{002C}' {
                -829
            } else if a == '\u{3001}' {
                -829
            } else if a == '\u{3007}' {
                892
            } else if a == '\u{300C}' {
                -645
            } else if a == '\u{300D}' {
                3145
            } else if a == '\u{3042}' {
                -538
            } else if a == '\u{3044}' {
                505
            } else if a == '\u{3046}' {
                134
            } else if a == '\u{304A}' {
                -502
            } else if a == '\u{304B}' {
                1454
            } else if a == '\u{304C}' {
                -856
            } else if a == '\u{304F}' {
                -412
            } else if a == '\u{3053}' {
                1141
            } else if a == '\u{3055}' {
                878
            } else if a == '\u{3056}' {
                540
            } else if a == '\u{3057}' {
                1529
            } else if a == '\u{3059}' {
                -675
            } else if a == '\u{305B}' {
                300
            } else if a == '\u{305D}' {
                -1011
            } else if a == '\u{305F}' {
                188
            } else if a == '\u{3060}' {
                1837
            } else if a == '\u{3064}' {
                -949
            } else if a == '\u{3066}' {
                -291
            } else if a == '\u{3067}' {
                -268
            } else if a == '\u{3068}' {
                -981
            } else if a == '\u{3069}' {
                1273
            } else if a == '\u{306A}' {
                1063
            } else if a == '\u{306B}' {
                -1764
            } else if a == '\u{306E}' {
                130
            } else if a == '\u{306F}' {
                -409
            } else if a == '\u{3072}' {
                -1273
            } else if a == '\u{3079}' {
                1261
            } else if a == '\u{307E}' {
                600
            } else if a == '\u{3082}' {
                -1263
            } else if a == '\u{3084}' {
                -402
            } else if a == '\u{3088}' {
                1639
            } else if a == '\u{308A}' {
                -579
            } else if a == '\u{308B}' {
                -694
            } else if a == '\u{308C}' {
                571
            } else if a == '\u{3092}' {
                -2516
            } else if a == '\u{3093}' {
                2095
            } else if a == '\u{30A2}' {
                -587
            } else if a == '\u{30AB}' {
                306
            } else if a == '\u{30AD}' {
                568
            } else if a == '\u{30C3}' {
                831
            } else if a == '\u{4E09}' {
                -758
            } else if a == '\u{4E0D}' {
                -2150
            } else if a == '\u{4E16}' {
                -302
            } else if a == '\u{4E2D}' {
                -968
            } else if a == '\u{4E3B}' {
                -861
            } else if a == '\u{4E8B}' {
                492
            } else if a == '\u{4EBA}' {
                -123
            } else if a == '\u{4F1A}' {
                978
            } else if a == '\u{4FDD}' {
                362
            } else if a == '\u{5165}' {
                548
            } else if a == '\u{521D}' {
                -3025
            } else if a == '\u{526F}' {
                -1566
            } else if a == '\u{5317}' {
                -3414
            } else if a == '\u{533A}' {
                -422
            } else if a == '\u{5927}' {
                -1769
            } else if a == '\u{5929}' {
                -865
            } else if a == '\u{592A}' {
                -483
            } else if a == '\u{5B50}' {
                -1519
            } else if a == '\u{5B66}' {
                760
            } else if a == '\u{5B9F}' {
                1023
            } else if a == '\u{5C0F}' {
                -2009
            } else if a == '\u{5E02}' {
                -813
            } else if a == '\u{5E74}' {
                -1060
            } else if a == '\u{5F37}' {
                1067
            } else if a == '\u{624B}' {
                -1519
            } else if a == '\u{63FA}' {
                -1033
            } else if a == '\u{653F}' {
                1522
            } else if a == '\u{6587}' {
                -1355
            } else if a == '\u{65B0}' {
                -1682
            } else if a == '\u{65E5}' {
                -1815
            } else if a == '\u{660E}' {
                -1462
            } else if a == '\u{6700}' {
                -630
            } else if a == '\u{671D}' {
                -1843
            } else if a == '\u{672C}' {
                -1650
            } else if a == '\u{6771}' {
                -931
            } else if a == '\u{679C}' {
                -665
            } else if a == '\u{6B21}' {
                -2378
            } else if a == '\u{6C11}' {
                -180
            } else if a == '\u{6C17}' {
                -1740
            } else if a == '\u{7406}' {
                752
            } else if a == '\u{767A}' {
                529
            } else if a == '\u{76EE}' {
                -1584
            } else if a == '\u{76F8}' {
                -242
            } else if a == '\u{770C}' {
                -1165
            } else if a == '\u{7ACB}' {
                -763
            } else if a == '\u{7B2C}' {
                810
            } else if a == '\u{7C73}' {
                509
            } else if a == '\u{81EA}' {
                -1353
            } else if a == '\u{884C}' {
                838
            } else if a == '\u{897F}' {
                -744
            } else if a == '\u{898B}' {
                -3874
            } else if a == '\u{8ABF}' {
                1010
            } else if a == '\u{8B70}' {
                1198
            } else if a == '\u{8FBC}' {
                3041
            } else if a == '\u{958B}' {
                1758
            } else if a == '\u{9593}' {
                -1257
            } else if a == '\u{FF62}' {
                -645
            } else if a == '\u{FF63}' {
                3145
            } else if a == '\u{FF6F}' {
                831
            } else if a == '\u{FF71}' {
                -587
            } else if a == '\u{FF76}' {
                306
            } else if a == '\u{FF77}' {
                568
            } else {
                0
            }
        },
        _ => 0,
    }
}

pub fn uw2(a: Elem) -> (r: i32)
    ensures
        r as int == spec_uw2(a),
{
    proof {
        reveal(spec_uw2);
    }
    match a {
        Elem::Ch(a) => {
            if a == '\u{002C}' {
                -829
            } else if a == '\u{3001}' {
                -829
            } else if a == '\u{3007}' {
                892
            } else if a == '\u{300C}' {
                -645
            } else if a == '\u{300D}' {
                3145
            } else if a == '\u{3042}' {
                -538
            } else if a == '\u{3044}' {
                505
            } else if a == '\u{3046}' {
                134
            } else if a == '\u{304A}' {
                -502
            } else if a == '\u{304B}' {
                1454
            } else if a == '\u{304C}' {
                -856
            } else if a == '\u{304F}' {
                -412
            } else if a == '\u{3053}' {
                1141
            } else if a == '\u{3055}' {
                878
            } else if a == '\u{3056}' {
                540
            } else if a == '\u{3057}' {
                1529
            } else if a == '\u{3059}' {
                -675
            } else if a == '\u{305B}' {
                300
            } else if a == '\u{305D}' {
                -1011
            } else if a == '\u{305F}' {
                188
            } else if a == '\u{3060}' {
                1837
            } else if a == '\u{3064}' {
                -949
            } else if a == '\u{3066}' {
                -291
            } else if a == '\u{3067}' {
                -268
            } else if a == '\u{3068}' {
                -981
            } else if a == '\u{3069}' {
                1273
            } else if a == '\u{306A}' {
                1063
            } else if a == '\u{306B}' {
                -1764
            } else if a == '\u{306E}' {
                130
            } else if a == '\u{306F}' {
                -409
            } else if a == '\u{3072}' {
                -1273
            } else if a == '\u{3079}' {
                1261
            } else if a == '\u{307E}' {
                600
            } else if a == '\u{3082}' {
                -1263
            } else if a == '\u{3084}' {
                -402
            } else if a == '\u{3088}' {
                1639
            } else if a == '\u{308A}' {
                -579
            } else if a == '\u{308B}' {
                -694
            } else if a == '\u{308C}' {
                571
            } else if a == '\u{3092}' {
                -2516
            } else if a == '\u{3093}' {
                2095
            } else if a == '\u{30A2}' {
                -587
            } else if a == '\u{30AB}' {
                306
            } else if a == '\u{30AD}' {
                568
            } else if a == '\u{30C3}' {
                831
            } else if a == '\u{4E09}' {
                -758
            } else if a == '\u{4E0D}' {
                -2150
            } else if a == '\u{4E16}' {
                -302
            } else if a == '\u{4E2D}' {
                -968
            } else if a == '\u{4E3B}' {
                -861
            } else if a == '\u{4E8B}' {
                492
            } else if a == '\u{4EBA}' {
                -123
            } else if a == '\u{4F1A}' {
                978
            } else if a == '\u{4FDD}' {
                362
            } else if a == '\u{5165}' {
                548
            } else if a == '\u{521D}' {
                -3025
            } else if a == '\u{526F}' {
                -1566
            } else if a == '\u{5317}' {
                -3414
            } else if a == '\u{533A}' {
                -422
            } else if a == '\u{5927}' {
                -1769
            } else if a == '\u{5929}' {
                -865
            } else if a == '\u{592A}' {
                -483
            } else if a == '\u{5B50}' {
                -1519
            } else if a == '\u{5B66}' {
                760
            } else if a == '\u{5B9F}' {
                1023
            } else if a == '\u{5C0F}' {
                -2009
            } else if a == '\u{5E02}' {
                -813
            } else if a == '\u{5E74}' {
                -1060
            } else if a == '\u{5F37}' {
                1067
            } else if a == '\u{624B}' {
                -1519
            } else if a == '\u{63FA}' {
                -1033
            } else if a == '\u{653F}' {
                1522
            } else if a == '\u{6587}' {
                -1355
            } else if a == '\u{65B0}' {
                -1682
            } else if a == '\u{65E5}' {
                -1815
            } else if a == '\u{660E}' {
                -1462
            } else if a == '\u{6700}' {
                -630
            } else if a == '\u{671D}' {
                -1843
            } else if a == '\u{672C}' {
                -1650
            } else if a == '\u{6771}' {
                -931
            } else if a == '\u{679C}' {
                -665
            } else if a == '\u{6B21}' {
                -2378
            } else if a == '\u{6C11}' {
                -180
            } else if a == '\u{6C17}' {
                -1740
            } else if a == '\u{7406}' {
                752
            } else if a == '\u{767A}' {
                529
            } else if a == '\u{76EE}' {
                -1584
            } else if a == '\u{76F8}' {
                -242
            } else if a == '\u{770C}' {
                -1165
            } else if a == '\u{7ACB}' {
                -763
            } else if a == '\u{7B2C}' {
                810
            } else if a == '\u{7C73}' {
                509
            } else if a == '\u{81EA}' {
                -1353
            } else if a == '\u{884C}' {
                838
            } else if a == '\u{897F}' {
                -744
            } else if a == '\u{898B}' {
                -3874
            } else if a == '\u{8ABF}' {
                1010
            } else if a == '\u{8B70}' {
                1198
            } else if a == '\u{8FBC}' {
                3041
            } else if a == '\u{958B}' {
                1758
            } else if a == '\u{9593}' {
                -1257
            } else if a == '\u{FF62}' {
                -645
            } else if a == '\u{FF63}' {
                3145
            } else if a == '\u{FF6F}' {
                831
            } else if a == '\u{FF71}' {
                -587
            } else if a == '\u{FF76}' {
                306
            } else if a == '\u{FF77}' {
                568
            } else {
                0
            }
        },
        _ => 0,
    }
}


#[verifier::opaque]
pub open spec fn spec_uw3(a: Elem) -> int {
    match a {
        Elem::Ch(a) => {
            if a == '\u{002C}' {
                4889
            } else if a == '\u{0031}' {
                -800
            } else if a == '\u{2212}' {
                -1723
            } else if a == '\u{3001}' {
                4889
            } else if a == '\u{3005}' {
                -2311
            } else if a == '\u{3007}' {
                5827
            } else if a == '\u{300D}' {
                2670
            } else if a == '\u{3013}' {
                -3573
            } else if a == '\u{3042}' {
                -2696
            } else if a == '\u{3044}' {
                1006
            } else if a == '\u{3046}' {
                2342
            } else if a == '\u{3048}' {
                1983
            } else if a == '\u{304A}' {
                -4864
            } else if a == '\u{304B}' {
                -1163
            } else if a == '\u{304C}' {
                3271
            } else if a == '\u{304F}' {
                1004
            } else if a == '\u{3051}' {
                388
            } else if a == '\u{3052}' {
                401
            } else if a == '\u{3053}' {
                -3552
            } else if a == '\u{3054}' {
                -3116
            } else if a == '\u{3055}' {
                -1058
            } else if a == '\u{3057}' {
                -395
            } else if a == '\u{3059}' {
                584
            } else if a == '\u{305B}' {
                3685
            } else if a == '\u{305D}' {
                -5228
            } else if a == '\u{305F}' {
                842
            } else if a == '\u{3061}' {
                -521
            } else if a == '\u{3063}' {
                -1444
            } else if a == '\u{3064}' {
                -1081
            } else if a == '\u{3066}' {
                6167
            } else if a == '\u{3067}' {
                2318
            } else if a == '\u{3068}' {
                1691
            } else if a == '\u{3069}' {
                -899
            } else if a == '\u{306A}' {
                -2788
            } else if a == '\u{306B}' {
                2745
            } else if a == '\u{306E}' {
                4056
            } else if a == '\u{306F}' {
                4555
            } else if a == '\u{3072}' {
                -2171
            } else if a == '\u{3075}' {
                -1798
            } else if a == '\u{3078}' {
                1199
            } else if a == '\u{307B}' {
                -5516
            } else if a == '\u{307E}' {
                -4384
            } else if a == '\u{307F}' {
                -120
            } else if a == '\u{3081}' {
                1205
            } else if a == '\u{3082}' {
                2323
            } else if a == '\u{3084}' {
                -788
            } else if a == '\u{3088}' {
                -202
            } else if a == '\u{3089}' {
                727
            } else if a == '\u{308A}' {
                649
            } else if a == '\u{308B}' {
                5905
            } else if a == '\u{308C}' {
                2773
            } else if a == '\u{308F}' {
                -1207
            } else if a == '\u{3092}' {
                6620
            } else if a == '\u{3093}' {
                -518
            } else if a == '\u{30A2}' {
                551
            } else if a == '\u{30B0}' {
                1319
            } else if a == '\u{30B9}' {
                874
            } else if a == '\u{30C3}' {
                -1350
            } else if a == '\u{30C8}' {
                521
            } else if a == '\u{30E0}' {
                1109
            } else if a == '\u{30EB}' {
                1591
            } else if a == '\u{30ED}' {
                2201
            } else if a == '\u{30F3}' {
                278
            } else if a == '\u{30FB}' {
                -3794
            } else if a == '\u{4E00}' {
                -1619
            } else if a == '\u{4E0B}' {
                -1759
            } else if a == '\u{4E16}' {
                -2087
            } else if a == '\u{4E21}' {
                3815
            } else if a == '\u{4E2D}' {
                653
            } else if a == '\u{4E3B}' {
                -758
            } else if a == '\u{4E88}' {
                -1193
            } else if a == '\u{4E8C}' {
                974
            } else if a == '\u{4EBA}' {
                2742
            } else if a == '\u{4ECA}' {
                792
            } else if a == '\u{4ED6}' {
                1889
            } else if a == '\u{4EE5}' {
                -1368
            } else if a == '\u{4F4E}' {
                811
            } else if a == '\u{4F55}' {
                4265
            } else if a == '\u{4F5C}' {
                -361
            } else if a == '\u{4FDD}' {
                -2439
            } else if a == '\u{5143}' {
                4858
            } else if a == '\u{515A}' {
                3593
            } else if a == '\u{5168}' {
                1574
            } else if a == '\u{516C}' {
                -3030
            } else if a == '\u{516D}' {
                755
            } else if a == '\u{5171}' {
                -1880
            } else if a == '\u{5186}' {
                5807
            } else if a == '\u{518D}' {
                3095
            } else if a == '\u{5206}' {
                457
            } else if a == '\u{521D}' {
                2475
            } else if a == '\u{5225}' {
                1129
            } else if a == '\u{524D}' {
                2286
            } else if a == '\u{526F}' {
                4437
            } else if a == '\u{529B}' {
                365
            } else if a == '\u{52D5}' {
                -949
            } else if a == '\u{52D9}' {
                -1872
            } else if a == '\u{5316}' {
                1327
            } else if a == '\u{5317}' {
                -1038
            } else if a == '\u{533A}' {
                4646
            } else if a == '\u{5343}' {
                -2309
            } else if a == '\u{5348}' {
                -783
            } else if a == '\u{5354}' {
                -1006
            } else if a == '\u{53E3}' {
                483
            } else if a == '\u{53F3}' {
                1233
            } else if a == '\u{5404}' {
                3588
            } else if a == '\u{5408}' {
                -241
            } else if a == '\u{540C}' {
                3906
            } else if a == '\u{548C}' {
                -837
            } else if a == '\u{54E1}' {
                4513
            } else if a == '\u{56FD}' {
                642
            } else if a == '\u{578B}' {
                1389
            } else if a == '\u{5834}' {
                1219
            } else if a == '\u{5916}' {
                -241
            } else if a == '\u{59BB}' {
                2016
            } else if a == '\u{5B66}' {
                -1356
            } else if a == '\u{5B89}' {
                -423
            } else if a == '\u{5B9F}' {
                -1008
            } else if a == '\u{5BB6}' {
                1078
            } else if a == '\u{5C0F}' {
                -513
            } else if a == '\u{5C11}' {
                -3102
            } else if a == '\u{5DDE}' {
                1155
            } else if a == '\u{5E02}' {
                3197
            } else if a == '\u{5E73}' {
                -1804
            } else if a == '\u{5E74}' {
                2416
            } else if a == '\u{5E83}' {
                -1030
            } else if a == '\u{5E9C}' {
                1605
            } else if a == '\u{5EA6}' {
                1452
            } else if a == '\u{5EFA}' {
                -2352
            } else if a == '\u{5F53}' {
                -3885
            } else if a == '\u{5F97}' {
                1905
            } else if a == '\u{601D}' {
                -1291
            } else if a == '\u{6027}' {
                1822
            } else if a == '\u{6238}' {
                -488
            } else if a == '\u{6307}' {
                -3973
            } else if a == '\u{653F}' {
                -2013
            } else if a == '\u{6559}' {
                -1479
            } else if a == '\u{6570}' {
                3222
            } else if a == '\u{6587}' {
                -1489
            } else if a == '\u{65B0}' {
                1764
            } else if a == '\u{65E5}' {
                2099
            } else if a == '\u{65E7}' {
                5792
            } else if a == '\u{6628}' {
                -661
            } else if a == '\u{6642}' {
                -1248
            } else if a == '\u{66DC}' {
                -951
            } else if a == '\u{6700}' {
                -937
            } else if a == '\u{6708}' {
                4125
            } else if a == '\u{671F}' {
                360
            } else if a == '\u{674E}' {
                3094
            } else if a == '\u{6751}' {
                364
            } else if a == '\u{6771}' {
                -805
            } else if a == '\u{6838}' {
                5156
            } else if a == '\u{68EE}' {
                2438
            } else if a == '\u{696D}' {
                484
            } else if a == '\u{6C0F}' {
                2613
            } else if a == '\u{6C11}' {
                -1694
            } else if a == '\u{6C7A}' {
                -1073
            } else if a == '\u{6CD5}' {
                1868
            } else if a == '\u{6D77}' {
                -495
            } else if a == '\u{7121}' {
                979
            } else if a == '\u{7269}' {
                461
            } else if a == '\u{7279}' {
                -3850
            } else if a == '\u{751F}' {
                -273
            } else if a == '\u{7528}' {
                914
            } else if a == '\u{753A}' {
                1215
            } else if a == '\u{7684}' {
                7313
            } else if a == '\u{76F4}' {
                -1835
            } else if a == '\u{7701}' {
                792
            } else if a == '\u{770C}' {
                6293
            } else if a == '\u{77E5}' {
                -1528
            } else if a == '\u{79C1}' {
                4231
            } else if a == '\u{7A0E}' {
                401
            } else if a == '\u{7ACB}' {
                -960
            } else if a == '\u{7B2C}' {
                1201
            } else if a == '\u{7C73}' {
                7767
            } else if a == '\u{7CFB}' {
                3066
            } else if a == '\u{7D04}' {
                3663
            } else if a == '\u{7D1A}' {
                1384
            } else if a == '\u{7D71}' {
                -4229
            } else if a == '\u{7DCF}' {
                1163
            } else if a == '\u{7DDA}' {
                1255
            } else if a == '\u{8005}' {
                6457
            } else if a == '\u{80FD}' {
                725
            } else if a == '\u{81EA}' {
                -2869
            } else if a == '\u{82F1}' {
                785
            } else if a == '\u{898B}' {
                1044
            } else if a == '\u{8ABF}' {
                -562
            } else if a == '\u{8CA1}' {
                -733
            } else if a == '\u{8CBB}' {
                1777
            } else if a == '\u{8ECA}' {
                1835
            } else if a == '\u{8ECD}' {
                1375
            } else if a == '\u{8FBC}' {
                -1504
            } else if a == '\u{901A}' {
                -1136
            } else if a == '\u{9078}' {
                -681
            } else if a == '\u{90CE}' {
                1026
            } else if a == '\u{90E1}' {
                4404
            } else if a == '\u{90E8}' {
                1200
            } else if a == '\u{91D1}' {
                2163
            } else if a == '\u{9577}' {
                421
            } else if a == '\u{958B}' {
                -1432
            } else if a == '\u{9593}' {
                1302
            } else if a == '\u{95A2}' {
                -1282
            } else if a == '\u{96E8}' {
                2009
            } else if a == '\u{96FB}' {
                -1045
            } else if a == '\u{975E}' {
                2066
            } else if a == '\u{99C5}' {
                1620
            } else if a == '\u{FF11}' {
                -800
            } else if a == '\u{FF63}' {
                2670
            } else if a == '\u{FF65}' {
                -3794
            } else if a == '\u{FF6F}' {
                -1350
            } else if a == '\u{FF71}' {
                551
            } else if a == '\u{FF7D}' {
                874
            } else if a == '\u{FF84}' {
                521
            } else if a == '\u{FF91}' {
                1109
            } else if a == '\u{FF99}' {
                1591
            } else if a == '\u{FF9B}' {
                2201
            } else if a == '\u{FF9D}' {
                278
            } else {
                0
            }
        },
        _ => 0,
    }
}

pub fn uw3(a: Elem) -> (r: i32)
    ensures
        r as int == spec_uw3(a),
{
    proof {
        reveal(spec_uw3);
    }
    match a {
        Elem::Ch(a) => {
            if a == '\u{002C}' {
                4889
            } else if a == '\u{0031}' {
                -800
            } else if a == '\u{2212}' {
                -1723
            } else if a == '\u{3001}' {
                4889
            } else if a == '\u{3005}' {
                -2311
            } else if a == '\u{3007}' {
                5827
            } else if a == '\u{300D}' {
                2670
            } else if a == '\u{3013}' {
                -3573
            } else if a == '\u{3042}' {
                -2696
            } else if a == '\u{3044}' {
                1006
            } else if a == '\u{3046}' {
                2342
            } else if a == '\u{3048}' {
                1983
            } else if a == '\u{304A}' {
                -4864
            } else if a == '\u{304B}' {
                -1163
            } else if a == '\u{304C}' {
                3271
            } else if a == '\u{304F}' {
                1004
            } else if a == '\u{3051}' {
                388
            } else if a == '\u{3052}' {
                401
            } else if a == '\u{3053}' {
                -3552
            } else if a == '\u{3054}' {
                -3116
            } else if a == '\u{3055}' {
                -1058
            } else if a == '\u{3057}' {
                -395
            } else if a == '\u{3059}' {
                584
            } else if a == '\u{305B}' {
                3685
            } else if a == '\u{305D}' {
                -5228
            } else if a == '\u{305F}' {
                842
            } else if a == '\u{3061}' {
                -521
            } else if a == '\u{3063}' {
                -1444
            } else if a == '\u{3064}' {
                -1081
            } else if a == '\u{3066}' {
                6167
            } else if a == '\u{3067}' {
                2318
            } else if a == '\u{3068}' {
                1691
            } else if a == '\u{3069}' {
                -899
            } else if a == '\u{306A}' {
                -2788
            } else if a == '\u{306B}' {
                2745
            } else if a == '\u{306E}' {
                4056
            } else if a == '\u{306F}' {
                4555
            } else if a == '\u{3072}' {
                -2171
            } else if a == '\u{3075}' {
                -1798
            } else if a == '\u{3078}' {
                1199
            } else if a == '\u{307B}' {
                -5516
            } else if a == '\u{307E}' {
                -4384
            } else if a == '\u{307F}' {
                -120
            } else if a == '\u{3081}' {
                1205
            } else if a == '\u{3082}' {
                2323
            } else if a == '\u{3084}' {
                -788
            } else if a == '\u{3088}' {
                -202
            } else if a == '\u{3089}' {
                727
            } else if a == '\u{308A}' {
                649
            } else if a == '\u{308B}' {
                5905
            } else if a == '\u{308C}' {
                2773
            } else if a == '\u{308F}' {
                -1207
            } else if a == '\u{3092}' {
                6620
            } else if a == '\u{3093}' {
                -518
            } else if a == '\u{30A2}' {
                551
            } else if a == '\u{30B0}' {
                1319
            } else if a == '\u{30B9}' {
                874
            } else if a == '\u{30C3}' {
                -1350
            } else if a == '\u{30C8}' {
                521
            } else if a == '\u{30E0}' {
                1109
            } else if a == '\u{30EB}' {
                1591
            } else if a == '\u{30ED}' {
                2201
            } else if a == '\u{30F3}' {
                278
            } else if a == '\u{30FB}' {
                -3794
            } else if a == '\u{4E00}' {
                -1619
            } else if a == '\u{4E0B}' {
                -1759
            } else if a == '\u{4E16}' {
                -2087
            } else if a == '\u{4E21}' {
                3815
            } else if a == '\u{4E2D}' {
                653
            } else if a == '\u{4E3B}' {
                -758
            } else if a == '\u{4E88}' {
                -1193
            } else if a == '\u{4E8C}' {
                974
            } else if a == '\u{4EBA}' {
                2742
            } else if a == '\u{4ECA}' {
                792
            } else if a == '\u{4ED6}' {
                1889
            } else if a == '\u{4EE5}' {
                -1368
            } else if a == '\u{4F4E}' {
                811
            } else if a == '\u{4F55}' {
                4265
            } else if a == '\u{4F5C}' {
                -361
            } else if a == '\u{4FDD}' {
                -2439
            } else if a == '\u{5143}' {
                4858
            } else if a == '\u{515A}' {
                3593
            } else if a == '\u{5168}' {
                1574
            } else if a == '\u{516C}' {
                -3030
            } else if a == '\u{516D}' {
                755
            } else if a == '\u{5171}' {
                -1880
            } else if a == '\u{5186}' {
                5807
            } else if a == '\u{518D}' {
                3095
            } else if a == '\u{5206}' {
                457
            } else if a == '\u{521D}' {
                2475
            } else if a == '\u{5225}' {
                1129
            } else if a == '\u{524D}' {
                2286
            } else if a == '\u{526F}' {
                4437
            } else if a == '\u{529B}' {
                365
            } else if a == '\u{52D5}' {
                -949
            } else if a == '\u{52D9}' {
                -1872
            } else if a == '\u{5316}' {
                1327
            } else if a == '\u{5317}' {
                -1038
            } else if a == '\u{533A}' {
                4646
            } else if a == '\u{5343}' {
                -2309
            } else if a == '\u{5348}' {
                -783
            } else if a == '\u{5354}' {
                -1006
            } else if a == '\u{53E3}' {
                483
            } else if a == '\u{53F3}' {
                1233
            } else if a == '\u{5404}' {
                3588
            } else if a == '\u{5408}' {
                -241
            } else if a == '\u{540C}' {
                3906
            } else if a == '\u{548C}' {
                -837
            } else if a == '\u{54E1}' {
                4513
            } else if a == '\u{56FD}' {
                642
            } else if a == '\u{578B}' {
                1389
            } else if a == '\u{5834}' {
                1219
            } else if a == '\u{5916}' {
                -241
            } else if a == '\u{59BB}' {
                2016
            } else if a == '\u{5B66}' {
                -1356
            } else if a == '\u{5B89}' {
                -423
            } else if a == '\u{5B9F}' {
                -1008
            } else if a == '\u{5BB6}' {
                1078
            } else if a == '\u{5C0F}' {
                -513
            } else if a == '\u{5C11}' {
                -3102
            } else if a == '\u{5DDE}' {
                1155
            } else if a == '\u{5E02}' {
                3197
            } else if a == '\u{5E73}' {
                -1804
            } else if a == '\u{5E74}' {
                2416
            } else if a == '\u{5E83}' {
                -1030
            } else if a == '\u{5E9C}' {
                1605
            } else if a == '\u{5EA6}' {
                1452
            } else if a == '\u{5EFA}' {
                -2352
            } else if a == '\u{5F53}' {
                -3885
            } else if a == '\u{5F97}' {
                1905
            } else if a == '\u{601D}' {
                -1291
            } else if a == '\u{6027}' {
                1822
            } else if a == '\u{6238}' {
                -488
            } else if a == '\u{6307}' {
                -3973
            } else if a == '\u{653F}' {
                -2013
            } else if a == '\u{6559}' {
                -1479
            } else if a == '\u{6570}' {
                3222
            } else if a == '\u{6587}' {
                -1489
            } else if a == '\u{65B0}' {
                1764
            } else if a == '\u{65E5}' {
                2099
            } else if a == '\u{65E7}' {
                5792
            } else if a == '\u{6628}' {
                -661
            } else if a == '\u{6642}' {
                -1248
            } else if a == '\u{66DC}' {
                -951
            } else if a == '\u{6700}' {
                -937
            } else if a == '\u{6708}' {
                4125
            } else if a == '\u{671F}' {
                360
            } else if a == '\u{674E}' {
                3094
            } else if a == '\u{6751}' {
                364
            } else if a == '\u{6771}' {
                -805
            } else if a == '\u{6838}' {
                5156
            } else if a == '\u{68EE}' {
                2438
            } else if a == '\u{696D}' {
                484
            } else if a == '\u{6C0F}' {
                2613
            } else if a == '\u{6C11}' {
                -1694
            } else if a == '\u{6C7A}' {
                -1073
            } else if a == '\u{6CD5}' {
                1868
            } else if a == '\u{6D77}' {
                -495
            } else if a == '\u{7121}' {
                979
            } else if a == '\u{7269}' {
                461
            } else if a == '\u{7279}' {
                -3850
            } else if a == '\u{751F}' {
                -273
            } else if a == '\u{7528}' {
                914
            } else if a == '\u{753A}' {
                1215
            } else if a == '\u{7684}' {
                7313
            } else if a == '\u{76F4}' {
                -1835
            } else if a == '\u{7701}' {
                792
            } else if a == '\u{770C}' {
                6293
            } else if a == '\u{77E5}' {
                -1528
            } else if a == '\u{79C1}' {
                4231
            } else if a == '\u{7A0E}' {
                401
            } else if a == '\u{7ACB}' {
                -960
            } else if a == '\u{7B2C}' {
                1201
            } else if a == '\u{7C73}' {
                7767
            } else if a == '\u{7CFB}' {
                3066
            } else if a == '\u{7D04}' {
                3663
            } else if a == '\u{7D1A}' {
                1384
            } else if a == '\u{7D71}' {
                -4229
            } else if a == '\u{7DCF}' {
                1163
            } else if a == '\u{7DDA}' {
                1255
            } else if a == '\u{8005}' {
                6457
            } else if a == '\u{80FD}' {
                725
            } else if a == '\u{81EA}' {
                -2869
            } else if a == '\u{82F1}' {
                785
            } else if a == '\u{898B}' {
                1044
            } else if a == '\u{8ABF}' {
                -562
            } else if a == '\u{8CA1}' {
                -733
            } else if a == '\u{8CBB}' {
                1777
            } else if a == '\u{8ECA}' {
                1835
            } else if a == '\u{8ECD}' {
                1375
            } else if a == '\u{8FBC}' {
                -1504
            } else if a == '\u{901A}' {
                -1136
            } else if a == '\u{9078}' {
                -681
            } else if a == '\u{90CE}' {
                1026
            } else if a == '\u{90E1}' {
                4404
            } else if a == '\u{90E8}' {
                1200
            } else if a == '\u{91D1}' {
                2163
            } else if a == '\u{9577}' {
                421
            } else if a == '\u{958B}' {
                -1432
            } else if a == '\u{9593}' {
                1302
            } else if a == '\u{95A2}' {
                -1282
            } else if a == '\u{96E8}' {
                2009
            } else if a == '\u{96FB}' {
                -1045
            } else if a == '\u{975E}' {
                2066
            } else if a == '\u{99C5}' {
                1620
            } else if a == '\u{FF11}' {
                -800
            } else if a == '\u{FF63}' {
                2670
            } else if a == '\u{FF65}' {
                -3794
            } else if a == '\u{FF6F}' {
                -1350
            } else if a == '\u{FF71}' {
                551
            } else if a == '\u{FF7D}' {
                874
            } else if a == '\u{FF84}' {
                521
            } else if a == '\u{FF91}' {
                1109
            } else if a == '\u{FF99}' {
                1591
            } else if a == '\u{FF9B}' {
                2201
            } else if a == '\u{FF9D}' {
                278
            } else {
                0
            }
        },
        _ => 0,
    }
}


#[verifier::opaque]
pub open spec fn spec_uw4(a: Elem) -> int {
    match a {
        Elem::Ch(a) => {
            if a == '\u{002C}' {
                3930
            } else if a == '\u{002E}' {
                3508
            } else if a == '\u{2015}' {
                -4841
            } else if a == '\u{3001}' {
                3930
            } else if a == '\u{3002}' {
                3508
            } else if a == '\u{3007}' {
                4999
            } else if a == '\u{300C}' {
                1895
            } else if a == '\u{300D}' {
                3798
            } else if a == '\u{3013}' {
                -5156
            } else if a == '\u{3042}' {
                4752
            } else if a == '\u{3044}' {
                -3435
            } else if a == '\u{3046}' {
                -640
            } else if a == '\u{3048}' {
                -2514
            } else if a == '\u{304A}' {
                2405
            } else if a == '\u{304B}' {
                530
            } else if a == '\u{304C}' {
                6006
            } else if a == '\u{304D}' {
                -4482
            } else if a == '\u{304E}' {
                -3821
            } else if a == '\u{304F}' {
                -3788
            } else if a == '\u{3051}' {
                -4376
            } else if a == '\u{3052}' {
                -4734
            } else if a == '\u{3053}' {
                2255
            } else if a == '\u{3054}' {
                1979
            } else if a == '\u{3055}' {
                2864
            } else if a == '\u{3057}' {
                -843
            } else if a == '\u{3058}' {
                -2506
            } else if a == '\u{3059}' {
                -731
            } else if a == '\u{305A}' {
                1251
            } else if a == '\u{305B}' {
                181
            } else if a == '\u{305D}' {
                4091
            } else if a == '\u{305F}' {
                5034
            } else if a == '\u{3060}' {
                5408
            } else if a == '\u{3061}' {
                -3654
            } else if a == '\u{3063}' {
                -5882
            } else if a == '\u{3064}' {
                -1659
            } else if a == '\u{3066}' {
                3994
            } else if a == '\u{3067}' {
                7410
            } else if a == '\u{3068}' {
                4547
            } else if a == '\u{306A}' {
                5433
            } else if a == '\u{306B}' {
                6499
            } else if a == '\u{306C}' {
                1853
            } else if a == '\u{306D}' {
                1413
            } else if a == '\u{306E}' {
                7396
            } else if a == '\u{306F}' {
                8578
            } else if a == '\u{3070}' {
                1940
            } else if a == '\u{3072}' {
                4249
            } else if a == '\u{3073}' {
                -4134
            } else if a == '\u{3075}' {
                1345
            } else if a == '\u{3078}' {
                6665
            } else if a == '\u{3079}' {
                -744
            } else if a == '\u{307B}' {
                1464
            } else if a == '\u{307E}' {
                1051
            } else if a == '\u{307F}' {
                -2082
            } else if a == '\u{3080}' {
                -882
            } else if a == '\u{3081}' {
                -5046
            } else if a == '\u{3082}' {
                4169
            } else if a == '\u{3083}' {
                -2666
            } else if a == '\u{3084}' {
                2795
            } else if a == '\u{3087}' {
                -1544
            } else if a == '\u{3088}' {
                3351
            } else if a == '\u{3089}' {
                -2922
            } else if a == '\u{308A}' {
                -9726
            } else if a == '\u{308B}' {
                -14896
            } else if a == '\u{308C}' {
                -2613
            } else if a == '\u{308D}' {
                -4570
            } else if a == '\u{308F}' {
                -1783
            } else if a == '\u{3092}' {
                13150
            } else if a == '\u{3093}' {
                -2352
            } else if a == '\u{30AB}' {
                2145
            } else if a == '\u{30B3}' {
                1789
            } else if a == '\u{30BB}' {
                1287
            } else if a == '\u{30C3}' {
                -724
            } else if a == '\u{30C8}' {
                -403
            } else if a == '\u{30E1}' {
                -1635
            } else if a == '\u{30E9}' {
                -881
            } else if a == '\u{30EA}' {
                -541
            } else if a == '\u{30EB}' {
                -856
            } else if a == '\u{30F3}' {
                -3637
            } else if a == '\u{30FB}' {
                -4371
            } else if a == '\u{30FC}' {
                -11870
            } else if a == '\u{4E00}' {
                -2069
            } else if a == '\u{4E2D}' {
                2210
            } else if a == '\u{4E88}' {
                782
            } else if a == '\u{4E8B}' {
                -190
            } else if a == '\u{4E95}' {
                -1768
            } else if a == '\u{4EBA}' {
                1036
            } else if a == '\u{4EE5}' {
                544
            } else if a == '\u{4F1A}' {
                950
            } else if a == '\u{4F53}' {
                -1286
            } else if a == '\u{4F5C}' {
                530
            } else if a == '\u{5074}' {
                4292
            } else if a == '\u{5148}' {
                601
            } else if a == '\u{515A}' {
                -2006
            } else if a == '\u{5171}' {
                -1212
            } else if a == '\u{5185}' {
                584
            } else if a == '\u{5186}' {
                788
            } else if a == '\u{521D}' {
                1347
            } else if a == '\u{524D}' {
                1623
            } else if a == '\u{526F}' {
                3879
            } else if a == '\u{529B}' {
                -302
            } else if a == '\u{52D5}' {
                -740
            } else if a == '\u{52D9}' {
                -2715
            } else if a == '\u{5316}' {
                776
            } else if a == '\u{533A}' {
                4517
            } else if a == '\u{5354}' {
                1013
            } else if a == '\u{53C2}' {
                1555
            } else if a == '\u{5408}' {
                -1834
            } else if a == '\u{548C}' {
                -681
            } else if a == '\u{54E1}' {
                -910
            } else if a == '\u{5668}' {
                -851
            } else if a == '\u{56DE}' {
                1500
            } else if a == '\u{56FD}' {
                -619
            } else if a == '\u{5712}' {
                -1200
            } else if a == '\u{5730}' {
                866
            } else if a == '\u{5834}' {
                -1410
            } else if a == '\u{5841}' {
                -2094
            } else if a == '\u{58EB}' {
                -1413
            } else if a == '\u{591A}' {
                1067
            } else if a == '\u{5927}' {
                571
            } else if a == '\u{5B50}' {
                -4802
            } else if a == '\u{5B66}' {
                -1397
            } else if a == '\u{5B9A}' {
                -1057
            } else if a == '\u{5BFA}' {
                -809
            } else if a == '\u{5C0F}' {
                1910
            } else if a == '\u{5C4B}' {
                -1328
            } else if a == '\u{5C71}' {
                -1500
            } else if a == '\u{5CF6}' {
                -2056
            } else if a == '\u{5DDD}' {
                -2667
            } else if a == '\u{5E02}' {
                2771
            } else if a == '\u{5E74}' {
                374
            } else if a == '\u{5E81}' {
                -4556
            } else if a == '\u{5F8C}' {
                456
            } else if a == '\u{6027}' {
                553
            } else if a == '\u{611F}' {
                916
            } else if a == '\u{6240}' {
                -1566
            } else if a == '\u{652F}' {
                856
            } else if a == '\u{6539}' {
                787
            } else if a == '\u{653F}' {
                2182
            } else if a == '\u{6559}' {
                704
            } else if a == '\u{6587}' {
                522
            } else if a == '\u{65B9}' {
                -856
            } else if a == '\u{65E5}' {
                1798
            } else if a == '\u{6642}' {
                1829
            } else if a == '\u{6700}' {
                845
            } else if a == '\u{6708}' {
                -9066
            } else if a == '\u{6728}' {
                -485
            } else if a == '\u{6765}' {
                -442
            } else if a == '\u{6821}' {
                -360
            } else if a == '\u{696D}' {
                -1043
            } else if a == '\u{6C0F}' {
                5388
            } else if a == '\u{6C11}' {
                -2716
            } else if a == '\u{6C17}' {
                -910
            } else if a == '\u{6CA2}' {
                -939
            } else if a == '\u{6E08}' {
                -543
            } else if a == '\u{7269}' {
                -735
            } else if a == '\u{7387}' {
                672
            } else if a == '\u{7403}' {
                -1267
            } else if a == '\u{751F}' {
                -1286
            } else if a == '\u{7523}' {
                -1101
            } else if a == '\u{7530}' {
                -2900
            } else if a == '\u{753A}' {
                1826
            } else if a == '\u{7684}' {
                2586
            } else if a == '\u{76EE}' {
                922
            } else if a == '\u{7701}' {
                -3485
            } else if a == '\u{770C}' {
                2997
            } else if a == '\u{7A7A}' {
                -867
            } else if a == '\u{7ACB}' {
                -2112
            } else if a == '\u{7B2C}' {
                788
            } else if a == '\u{7C73}' {
                2937
            } else if a == '\u{7CFB}' {
                786
            } else if a == '\u{7D04}' {
                2171
            } else if a == '\u{7D4C}' {
                1146
            } else if a == '\u{7D71}' {
                -1169
            } else if a == '\u{7DCF}' {
                940
            } else if a == '\u{7DDA}' {
                -994
            } else if a == '\u{7F72}' {
                749
            } else if a == '\u{8005}' {
                2145
            } else if a == '\u{80FD}' {
                -730
            } else if a == '\u{822C}' {
                -852
            } else if a == '\u{884C}' {
                -792
            } else if a == '\u{898F}' {
                792
            } else if a == '\u{8B66}' {
                -1184
            } else if a == '\u{8B70}' {
                -244
            } else if a == '\u{8C37}' {
                -1000
            } else if a == '\u{8CDE}' {
                730
            } else if a == '\u{8ECA}' {
                -1481
            } else if a == '\u{8ECD}' {
                1158
            } else if a == '\u{8F2A}' {
                -1433
            } else if a == '\u{8FBC}' {
                -3370
            } else if a == '\u{8FD1}' {
                929
            } else if a == '\u{9053}' {
                -1291
            } else if a == '\u{9078}' {
                2596
            } else if a == '\u{90CE}' {
                -4866
            } else if a == '\u{90FD}' {
                1192
            } else if a == '\u{91CE}' {
                -1100
            } else if a == '\u{9280}' {
                -2213
            } else if a == '\u{9577}' {
                357
            } else if a == '\u{9593}' {
                -2344
            } else if a == '\u{9662}' {
                -2297
            } else if a == '\u{969B}' {
                -2604
            } else if a == '\u{96FB}' {
                -878
            } else if a == '\u{9818}' {
                -1659
            } else if a == '\u{984C}' {
                -792
            } else if a == '\u{9928}' {
                -1984
            } else if a == '\u{9996}' {
                1749
            } else if a == '\u{9AD8}' {
                2120
            } else if a == '\u{FF62}' {
                1895
            } else if a == '\u{FF63}' {
                3798
            } else if a == '\u{FF65}' {
                -4371
            } else if a == '\u{FF6F}' {
                -724
            } else if a == '\u{FF70}' {
                -11870
            } else if a == '\u{FF76}' {
                2145
            } else if a == '\u{FF7A}' {
                1789
            } else if a == '\u{FF7E}' {
                1287
            } else if a == '\u{FF84}' {
                -403
            } else if a == '\u{FF92}' {
                -1635
            } else if a == '\u{FF97}' {
                -881
            } else if a == '\u{FF98}' {
                -541
            } else if a == '\u{FF99}' {
                -856
            } else if a == '\u{FF9D}' {
                -3637
            } else {
                0
            }
        },
        _ => 0,
    }
}

pub fn uw4(a: Elem) -> (r: i32)
    ensures
        r as int == spec_uw4(a),
{
    proof {
        reveal(spec_uw4);
    }
    match a {
        Elem::Ch(a) => {
            if a == '\u{002C}' {
                3930
            } else if a == '\u{002E}' {
                3508
            } else if a == '\u{2015}' {
                -4841
            } else if a == '\u{3001}' {
                3930
            } else if a == '\u{3002}' {
                3508
            } else if a == '\u{3007}' {
                4999
            } else if a == '\u{300C}' {
                1895
            } else if a == '\u{300D}' {
                3798
            } else if a == '\u{3013}' {
                -5156
            } else if a == '\u{3042}' {
                4752
            } else if a == '\u{3044}' {
                -3435
            } else if a == '\u{3046}' {
                -640
            } else if a == '\u{3048}' {
                -2514
            } else if a == '\u{304A}' {
                2405
            } else if a == '\u{304B}' {
                530
            } else if a == '\u{304C}' {
                6006
            } else if a == '\u{304D}' {
                -4482
            } else if a == '\u{304E}' {
                -3821
            } else if a == '\u{304F}' {
                -3788
            } else if a == '\u{3051}' {
                -4376
            } else if a == '\u{3052}' {
                -4734
            } else if a == '\u{3053}' {
                2255
            } else if a == '\u{3054}' {
                1979
            } else if a == '\u{3055}' {
                2864
            } else if a == '\u{3057}' {
                -843
            } else if a == '\u{3058}' {
                -2506
            } else if a == '\u{3059}' {
                -731
            } else if a == '\u{305A}' {
                1251
            } else if a == '\u{305B}' {
                181
            } else if a == '\u{305D}' {
                4091
            } else if a == '\u{305F}' {
                5034
            } else if a == '\u{3060}' {
                5408
            } else if a == '\u{3061}' {
                -3654
            } else if a == '\u{3063}' {
                -5882
            } else if a == '\u{3064}' {
                -1659
            } else if a == '\u{3066}' {
                3994
            } else if a == '\u{3067}' {
                7410
            } else if a == '\u{3068}' {
                4547
            } else if a == '\u{306A}' {
                5433
            } else if a == '\u{306B}' {
                6499
            } else if a == '\u{306C}' {
                1853
            } else if a == '\u{306D}' {
                1413
            } else if a == '\u{306E}' {
                7396
            } else if a == '\u{306F}' {
                8578
            } else if a == '\u{3070}' {
                1940
            } else if a == '\u{3072}' {
                4249
            } else if a == '\u{3073}' {
                -4134
            } else if a == '\u{3075}' {
                1345
            } else if a == '\u{3078}' {
                6665
            } else if a == '\u{3079}' {
                -744
            } else if a == '\u{307B}' {
                1464
            } else if a == '\u{307E}' {
                1051
            } else if a == '\u{307F}' {
                -2082
            } else if a == '\u{3080}' {
                -882
            } else if a == '\u{3081}' {
                -5046
            } else if a == '\u{3082}' {
                4169
            } else if a == '\u{3083}' {
                -2666
            } else if a == '\u{3084}' {
                2795
            } else if a == '\u{3087}' {
                -1544
            } else if a == '\u{3088}' {
                3351
            } else if a == '\u{3089}' {
                -2922
            } else if a == '\u{308A}' {
                -9726
            } else if a == '\u{308B}' {
                -14896
            } else if a == '\u{308C}' {
                -2613
            } else if a == '\u{308D}' {
                -4570
            } else if a == '\u{308F}' {
                -1783
            } else if a == '\u{3092}' {
                13150
            } else if a == '\u{3093}' {
                -2352
            } else if a == '\u{30AB}' {
                2145
            } else if a == '\u{30B3}' {
                1789
            } else if a == '\u{30BB}' {
                1287
            } else if a == '\u{30C3}' {
                -724
            } else if a == '\u{30C8}' {
                -403
            } else if a == '\u{30E1}' {
                -1635
            } else if a == '\u{30E9}' {
                -881
            } else if a == '\u{30EA}' {
                -541
            } else if a == '\u{30EB}' {
                -856
            } else if a == '\u{30F3}' {
                -3637
            } else if a == '\u{30FB}' {
                -4371
            } else if a == '\u{30FC}' {
                -11870
            } else if a == '\u{4E00}' {
                -2069
            } else if a == '\u{4E2D}' {
                2210
            } else if a == '\u{4E88}' {
                782
            } else if a == '\u{4E8B}' {
                -190
            } else if a == '\u{4E95}' {
                -1768
            } else if a == '\u{4EBA}' {
                1036
            } else if a == '\u{4EE5}' {
                544
            } else if a == '\u{4F1A}' {
                950
            } else if a == '\u{4F53}' {
                -1286
            } else if a == '\u{4F5C}' {
                530
            } else if a == '\u{5074}' {
                4292
            } else if a == '\u{5148}' {
                601
            } else if a == '\u{515A}' {
                -2006
            } else if a == '\u{5171}' {
                -1212
            } else if a == '\u{5185}' {
                584
            } else if a == '\u{5186}' {
                788
            } else if a == '\u{521D}' {
                1347
            } else if a == '\u{524D}' {
                1623
            } else if a == '\u{526F}' {
                3879
            } else if a == '\u{529B}' {
                -302
            } else if a == '\u{52D5}' {
                -740
            } else if a == '\u{52D9}' {
                -2715
            } else if a == '\u{5316}' {
                776
            } else if a == '\u{533A}' {
                4517
            } else if a == '\u{5354}' {
                1013
            } else if a == '\u{53C2}' {
                1555
            } else if a == '\u{5408}' {
                -1834
            } else if a == '\u{548C}' {
                -681
            } else if a == '\u{54E1}' {
                -910
            } else if a == '\u{5668}' {
                -851
            } else if a == '\u{56DE}' {
                1500
            } else if a == '\u{56FD}' {
                -619
            } else if a == '\u{5712}' {
                -1200
            } else if a == '\u{5730}' {
                866
            } else if a == '\u{5834}' {
                -1410
            } else if a == '\u{5841}' {
                -2094
            } else if a == '\u{58EB}' {
                -1413
            } else if a == '\u{591A}' {
                1067
            } else if a == '\u{5927}' {
                571
            } else if a == '\u{5B50}' {
                -4802
            } else if a == '\u{5B66}' {
                -1397
            } else if a == '\u{5B9A}' {
                -1057
            } else if a == '\u{5BFA}' {
                -809
            } else if a == '\u{5C0F}' {
                1910
            } else if a == '\u{5C4B}' {
                -1328
            } else if a == '\u{5C71}' {
                -1500
            } else if a == '\u{5CF6}' {
                -2056
            } else if a == '\u{5DDD}' {
                -2667
            } else if a == '\u{5E02}' {
                2771
            } else if a == '\u{5E74}' {
                374
            } else if a == '\u{5E81}' {
                -4556
            } else if a == '\u{5F8C}' {
                456
            } else if a == '\u{6027}' {
                553
            } else if a == '\u{611F}' {
                916
            } else if a == '\u{6240}' {
                -1566
            } else if a == '\u{652F}' {
                856
            } else if a == '\u{6539}' {
                787
            } else if a == '\u{653F}' {
                2182
            } else if a == '\u{6559}' {
                704
            } else if a == '\u{6587}' {
                522
            } else if a == '\u{65B9}' {
                -856
            } else if a == '\u{65E5}' {
                1798
            } else if a == '\u{6642}' {
                1829
            } else if a == '\u{6700}' {
                845
            } else if a == '\u{6708}' {
                -9066
            } else if a == '\u{6728}' {
                -485
            } else if a == '\u{6765}' {
                -442
            } else if a == '\u{6821}' {
                -360
            } else if a == '\u{696D}' {
                -1043
            } else if a == '\u{6C0F}' {
                5388
            } else if a == '\u{6C11}' {
                -2716
            } else if a == '\u{6C17}' {
                -910
            } else if a == '\u{6CA2}' {
                -939
            } else if a == '\u{6E08}' {
                -543
            } else if a == '\u{7269}' {
                -735
            } else if a == '\u{7387}' {
                672
            } else if a == '\u{7403}' {
                -1267
            } else if a == '\u{751F}' {
                -1286
            } else if a == '\u{7523}' {
                -1101
            } else if a == '\u{7530}' {
                -2900
            } else if a == '\u{753A}' {
                1826
            } else if a == '\u{7684}' {
                2586
            } else if a == '\u{76EE}' {
                922
            } else if a == '\u{7701}' {
                -3485
            } else if a == '\u{770C}' {
                2997
            } else if a == '\u{7A7A}' {
                -867
            } else if a == '\u{7ACB}' {
                -2112
            } else if a == '\u{7B2C}' {
                788
            } else if a == '\u{7C73}' {
                2937
            } else if a == '\u{7CFB}' {
                786
            } else if a == '\u{7D04}' {
                2171
            } else if a == '\u{7D4C}' {
                1146
            } else if a == '\u{7D71}' {
                -1169
            } else if a == '\u{7DCF}' {
                940
            } else if a == '\u{7DDA}' {
                -994
            } else if a == '\u{7F72}' {
                749
            } else if a == '\u{8005}' {
                2145
            } else if a == '\u{80FD}' {
                -730
            } else if a == '\u{822C}' {
                -852
            } else if a == '\u{884C}' {
                -792
            } else if a == '\u{898F}' {
                792
            } else if a == '\u{8B66}' {
                -1184
            } else if a == '\u{8B70}' {
                -244
            } else if a == '\u{8C37}' {
                -1000
            } else if a == '\u{8CDE}' {
                730
            } else if a == '\u{8ECA}' {
                -1481
            } else if a == '\u{8ECD}' {
                1158
            } else if a == '\u{8F2A}' {
                -1433
            } else if a == '\u{8FBC}' {
                -3370
            } else if a == '\u{8FD1}' {
                929
            } else if a == '\u{9053}' {
                -1291
            } else if a == '\u{9078}' {
                2596
            } else if a == '\u{90CE}' {
                -4866
            } else if a == '\u{90FD}' {
                1192
            } else if a == '\u{91CE}' {
                -1100
            } else if a == '\u{9280}' {
                -2213
            } else if a == '\u{9577}' {
                357
            } else if a == '\u{9593}' {
                -2344
            } else if a == '\u{9662}' {
                -2297
            } else if a == '\u{969B}' {
                -2604
            } else if a == '\u{96FB}' {
                -878
            } else if a == '\u{9818}' {
                -1659
            } else if a == '\u{984C}' {
                -792
            } else if a == '\u{9928}' {
                -1984
            } else if a == '\u{9996}' {
                1749
            } else if a == '\u{9AD8}' {
                2120
            } else if a == '\u{FF62}' {
                1895
            } else if a == '\u{FF63}' {
                3798
            } else if a == '\u{FF65}' {
                -4371
            } else if a == '\u{FF6F}' {
                -724
            } else if a == '\u{FF70}' {
                -11870
            } else if a == '\u{FF76}' {
                2145
            } else if a == '\u{FF7A}' {
                1789
            } else if a == '\u{FF7E}' {
                1287
            } else if a == '\u{FF84}' {
                -403
            } else if a == '\u{FF92}' {
                -1635
            } else if a == '\u{FF97}' {
                -881
            } else if a == '\u{FF98}' {
                -541
            } else if a == '\u{FF99}' {
                -856
            } else if a == '\u{FF9D}' {
                -3637
            } else {
                0
            }
        },
        _ => 0,
    }
}


#[verifier::opaque]
pub open spec fn spec_uw5(a: Elem) -> int {
    match a {
        Elem::Ch(a) => {
            if a == '\u{002C}' {
                465
            } else if a == '\u{002E}' {
                -299
            } else if a == '\u{0031}' {
                -514
            } else if a == '\u{005D}' {
                -2762
            } else if a == '\u{3001}' {
                465
            } else if a == '\u{3002}' {
                -299
            } else if a == '\u{300C}' {
                363
            } else if a == '\u{3042}' {
                1655
            } else if a == '\u{3044}' {
                331
            } else if a == '\u{3046}' {
                -503
            } else if a == '\u{3048}' {
                1199
            } else if a == '\u{304A}' {
                527
            } else if a == '\u{304B}' {
                647
            } else if a == '\u{304C}' {
                -421
            } else if a == '\u{304D}' {
                1624
            } else if a == '\u{304E}' {
                1971
            } else if a == '\u{304F}' {
                312
            } else if a == '\u{3052}' {
                -983
            } else if a == '\u{3055}' {
                -1537
            } else if a == '\u{3057}' {
                -1371
            } else if a == '\u{3059}' {
                -852
            } else if a == '\u{3060}' {
                -1186
            } else if a == '\u{3061}' {
                1093
            } else if a == '\u{3063}' {
                52
            } else if a == '\u{3064}' {
                921
            } else if a == '\u{3066}' {
                -18
            } else if a == '\u{3067}' {
                -850
            } else if a == '\u{3068}' {
                -127
            } else if a == '\u{3069}' {
                1682
            } else if a == '\u{306A}' {
                -787
            } else if a == '\u{306B}' {
                -1224
            } else if a == '\u{306E}' {
                -635
            } else if a == '\u{306F}' {
                -578
            } else if a == '\u{3079}' {
                1001
            } else if a == '\u{307F}' {
                502
            } else if a == '\u{3081}' {
                865
            } else if a == '\u{3083}' {
                3350
            } else if a == '\u{3087}' {
                854
            } else if a == '\u{308A}' {
                -208
            } else if a == '\u{308B}' {
                429
            } else if a == '\u{308C}' {
                504
            } else if a == '\u{308F}' {
                419
            } else if a == '\u{3092}' {
                -1264
            } else if a == '\u{3093}' {
                327
            } else if a == '\u{30A4}' {
                241
            } else if a == '\u{30EB}' {
                451
            } else if a == '\u{30F3}' {
                -343
            } else if a == '\u{4E2D}' {
                -871
            } else if a == '\u{4EAC}' {
                722
            } else if a == '\u{4F1A}' {
                -1153
            } else if a == '\u{515A}' {
                -654
            } else if a == '\u{52D9}' {
                3519
            } else if a == '\u{533A}' {
                -901
            } else if a == '\u{544A}' {
                848
            } else if a == '\u{54E1}' {
                2104
            } else if a == '\u{5927}' {
                -1296
            } else if a == '\u{5B66}' {
                -548
            } else if a == '\u{5B9A}' {
                1785
            } else if a == '\u{5D50}' {
                -1304
            } else if a == '\u{5E02}' {
                -2991
            } else if a == '\u{5E2D}' {
                921
            } else if a == '\u{5E74}' {
                1763
            } else if a == '\u{601D}' {
                872
            } else if a == '\u{6240}' {
                -814
            } else if a == '\u{6319}' {
                1618
            } else if a == '\u{65B0}' {
                -1682
            } else if a == '\u{65E5}' {
                218
            } else if a == '\u{6708}' {
                -4353
            } else if a == '\u{67FB}' {
                932
            } else if a == '\u{683C}' {
                1356
            } else if a == '\u{6A5F}' {
                -1508
            } else if a == '\u{6C0F}' {
                -1347
            } else if a == '\u{7530}' {
                240
            } else if a == '\u{753A}' {
                -3912
            } else if a == '\u{7684}' {
                -3149
            } else if a == '\u{76F8}' {
                1319
            } else if a == '\u{7701}' {
                -1052
            } else if a == '\u{770C}' {
                -4003
            } else if a == '\u{7814}' {
                -997
            } else if a == '\u{793E}' {
                -278
            } else if a == '\u{7A7A}' {
                -813
            } else if a == '\u{7D71}' {
                1955
            } else if a == '\u{8005}' {
                -2233
            } else if a == '\u{8868}' {
                663
            } else if a == '\u{8A9E}' {
                -1073
            } else if a == '\u{8B70}' {
                1219
            } else if a == '\u{9078}' {
                -1018
            } else if a == '\u{90CE}' {
                -368
            } else if a == '\u{9577}' {
                786
            } else if a == '\u{9593}' {
                1191
            } else if a == '\u{984C}' {
                2368
            } else if a == '\u{9928}' {
                -689
            } else if a == '\u{FF11}' {
                -514
            } else if a == '\u{FF62}' {
                363
            } else if a == '\u{FF72}' {
                241
            } else if a == '\u{FF99}' {
                451
            } else if a == '\u{FF9D}' {
                -343
            } else {
                0
            }
        },
        Elem::E2 => -32768,
        _ => 0,
    }
}

pub fn uw5(a: Elem) -> (r: i32)
    ensures
        r as int == spec_uw5(a),
{
    proof {
        reveal(spec_uw5);
    }
    match a {
        Elem::Ch(a) => {
            if a == '\u{002C}' {
                465
            } else if a == '\u{002E}' {
                -299
            } else if a == '\u{0031}' {
                -514
            } else if a == '\u{005D}' {
                -2762
            } else if a == '\u{3001}' {
                465
            } else if a == '\u{3002}' {
                -299
            } else if a == '\u{300C}' {
                363
            } else if a == '\u{3042}' {
                1655
            } else if a == '\u{3044}' {
                331
            } else if a == '\u{3046}' {
                -503
            } else if a == '\u{3048}' {
                1199
            } else if a == '\u{304A}' {
                527
            } else if a == '\u{304B}' {
                647
            } else if a == '\u{304C}' {
                -421
            } else if a == '\u{304D}' {
                1624
            } else if a == '\u{304E}' {
                1971
            } else if a == '\u{304F}' {
                312
            } else if a == '\u{3052}' {
                -983
            } else if a == '\u{3055}' {
                -1537
            } else if a == '\u{3057}' {
                -1371
            } else if a == '\u{3059}' {
                -852
            } else if a == '\u{3060}' {
                -1186
            } else if a == '\u{3061}' {
                1093
            } else if a == '\u{3063}' {
                52
            } else if a == '\u{3064}' {
                921
            } else if a == '\u{3066}' {
                -18
            } else if a == '\u{3067}' {
                -850
            } else if a == '\u{3068}' {
                -127
            } else if a == '\u{3069}' {
                1682
            } else if a == '\u{306A}' {
                -787
            } else if a == '\u{306B}' {
                -1224
            } else if a == '\u{306E}' {
                -635
            } else if a == '\u{306F}' {
                -578
            } else if a == '\u{3079}' {
                1001
            } else if a == '\u{307F}' {
                502
            } else if a == '\u{3081}' {
                865
            } else if a == '\u{3083}' {
                3350
            } else if a == '\u{3087}' {
                854
            } else if a == '\u{308A}' {
                -208
            } else if a == '\u{308B}' {
                429
            } else if a == '\u{308C}' {
                504
            } else if a == '\u{308F}' {
                419
            } else if a == '\u{3092}' {
                -1264
            } else if a == '\u{3093}' {
                327
            } else if a == '\u{30A4}' {
                241
            } else if a == '\u{30EB}' {
                451
            } else if a == '\u{30F3}' {
                -343
            } else if a == '\u{4E2D}' {
                -871
            } else if a == '\u{4EAC}' {
                722
            } else if a == '\u{4F1A}' {
                -1153
            } else if a == '\u{515A}' {
                -654
            } else if a == '\u{52D9}' {
                3519
            } else if a == '\u{533A}' {
                -901
            } else if a == '\u{544A}' {
                848
            } else if a == '\u{54E1}' {
                2104
            } else if a == '\u{5927}' {
                -1296
            } else if a == '\u{5B66}' {
                -548
            } else if a == '\u{5B9A}' {
                1785
            } else if a == '\u{5D50}' {
                -1304
            } else if a == '\u{5E02}' {
                -2991
            } else if a == '\u{5E2D}' {
                921
            } else if a == '\u{5E74}' {
                1763
            } else if a == '\u{601D}' {
                872
            } else if a == '\u{6240}' {
                -814
            } else if a == '\u{6319}' {
                1618
            } else if a == '\u{65B0}' {
                -1682
            } else if a == '\u{65E5}' {
                218
            } else if a == '\u{6708}' {
                -4353
            } else if a == '\u{67FB}' {
                932
            } else if a == '\u{683C}' {
                1356
            } else if a == '\u{6A5F}' {
                -1508
            } else if a == '\u{6C0F}' {
                -1347
            } else if a == '\u{7530}' {
                240
            } else if a == '\u{753A}' {
                -3912
            } else if a == '\u{7684}' {
                -3149
            } else if a == '\u{76F8}' {
                1319
            } else if a == '\u{7701}' {
                -1052
            } else if a == '\u{770C}' {
                -4003
            } else if a == '\u{7814}' {
                -997
            } else if a == '\u{793E}' {
                -278
            } else if a == '\u{7A7A}' {
                -813
            } else if a == '\u{7D71}' {
                1955
            } else if a == '\u{8005}' {
                -2233
            } else if a == '\u{8868}' {
                663
            } else if a == '\u{8A9E}' {
                -1073
            } else if a == '\u{8B70}' {
                1219
            } else if a == '\u{9078}' {
                -1018
            } else if a == '\u{90CE}' {
                -368
            } else if a == '\u{9577}' {
                786
            } else if a == '\u{9593}' {
                1191
            } else if a == '\u{984C}' {
                2368
            } else if a == '\u{9928}' {
                -689
            } else if a == '\u{FF11}' {
                -514
            } else if a == '\u{FF62}' {
                363
            } else if a == '\u{FF72}' {
                241
            } else if a == '\u{FF99}' {
                451
            } else if a == '\u{FF9D}' {
                -343
            } else {
                0
            }
        },
        Elem::E2 => -32768,
        _ => 0,
    }
}


#[verifier::opaque]
pub open spec fn spec_uw6(a: Elem) -> int {
    match a {
        Elem::Ch(a) => {
            if a == '\u{002C}' {
                227
            } else if a == '\u{002E}' {
                808
            } else if a == '\u{0031}' {
                -270
            } else if a == '\u{3001}' {
                227
            } else if a == '\u{3002}' {
                808
            } else if a == '\u{3042}' {
                -307
            } else if a == '\u{3046}' {
                189
            } else if a == '\u{304B}' {
                241
            } else if a == '\u{304C}' {
                -73
            } else if a == '\u{304F}' {
                -121
            } else if a == '\u{3053}' {
                -200
            } else if a == '\u{3058}' {
                1782
            } else if a == '\u{3059}' {
                383
            } else if a == '\u{305F}' {
                -428
            } else if a == '\u{3063}' {
                573
            } else if a == '\u{3066}' {
                -1014
            } else if a == '\u{3067}' {
                101
            } else if a == '\u{3068}' {
                -105
            } else if a == '\u{306A}' {
                -253
            } else if a == '\u{306B}' {
                -149
            } else if a == '\u{306E}' {
                -417
            } else if a == '\u{306F}' {
                -236
            } else if a == '\u{3082}' {
                -206
            } else if a == '\u{308A}' {
                187
            } else if a == '\u{308B}' {
                -135
            } else if a == '\u{3092}' {
                195
            } else if a == '\u{30EB}' {
                -673
            } else if a == '\u{30F3}' {
                -496
            } else if a == '\u{4E00}' {
                -277
            } else if a == '\u{4E2D}' {
                201
            } else if a == '\u{4EF6}' {
                -800
            } else if a == '\u{4F1A}' {
                624
            } else if a == '\u{524D}' {
                302
            } else if a == '\u{533A}' {
                1792
            } else if a == '\u{54E1}' {
                -1212
            } else if a == '\u{59D4}' {
                798
            } else if a == '\u{5B66}' {
                -960
            } else if a == '\u{5E02}' {
                887
            } else if a == '\u{5E83}' {
                -695
            } else if a == '\u{5F8C}' {
                535
            } else if a == '\u{696D}' {
                -697
            } else if a == '\u{76F8}' {
                753
            } else if a == '\u{793E}' {
                -507
            } else if a == '\u{798F}' {
                974
            } else if a == '\u{7A7A}' {
                -822
            } else if a == '\u{8005}' {
                1811
            } else if a == '\u{9023}' {
                463
            } else if a == '\u{90CE}' {
                1082
            } else if a == '\u{FF11}' {
                -270
            } else if a == '\u{FF99}' {
                -673
            } else if a == '\u{FF9D}' {
                -496
            } else {
                0
            }
        },
        Elem::E1 => 306,
        _ => 0,
    }
}

pub fn uw6(a: Elem) -> (r: i32)
    ensures
        r as int == spec_uw6(a),
{
    proof {
        reveal(spec_uw6);
    }
    match a {
        Elem::Ch(a) => {
            if a == '\u{002C}' {
                227
            } else if a == '\u{002E}' {
                808
            } else if a == '\u{0031}' {
                -270
            } else if a == '\u{3001}' {
                227
            } else if a == '\u{3002}' {
                808
            } else if a == '\u{3042}' {
                -307
            } else if a == '\u{3046}' {
                189
            } else if a == '\u{304B}' {
                241
            } else if a == '\u{304C}' {
                -73
            } else if a == '\u{304F}' {
                -121
            } else if a == '\u{3053}' {
                -200
            } else if a == '\u{3058}' {
                1782
            } else if a == '\u{3059}' {
                383
            } else if a == '\u{305F}' {
                -428
            } else if a == '\u{3063}' {
                573
            } else if a == '\u{3066}' {
                -1014
            } else if a == '\u{3067}' {
                101
            } else if a == '\u{3068}' {
                -105
            } else if a == '\u{306A}' {
                -253
            } else if a == '\u{306B}' {
                -149
            } else if a == '\u{306E}' {
                -417
            } else if a == '\u{306F}' {
                -236
            } else if a == '\u{3082}' {
                -206
            } else if a == '\u{308A}' {
                187
            } else if a == '\u{308B}' {
                -135
            } else if a == '\u{3092}' {
                195
            } else if a == '\u{30EB}' {
                -673
            } else if a == '\u{30F3}' {
                -496
            } else if a == '\u{4E00}' {
                -277
            } else if a == '\u{4E2D}' {
                201
            } else if a == '\u{4EF6}' {
                -800
            } else if a == '\u{4F1A}' {
                624
            } else if a == '\u{524D}' {
                302
            } else if a == '\u{533A}' {
                1792
            } else if a == '\u{54E1}' {
                -1212
            } else if a == '\u{59D4}' {
                798
            } else if a == '\u{5B66}' {
                -960
            } else if a == '\u{5E02}' {
                887
            } else if a == '\u{5E83}' {
                -695
            } else if a == '\u{5F8C}' {
                535
            } else if a == '\u{696D}' {
                -697
            } else if a == '\u{76F8}' {
                753
            } else if a == '\u{793E}' {
                -507
            } else if a == '\u{798F}' {
                974
            } else if a == '\u{7A7A}' {
                -822
            } else if a == '\u{8005}' {
                1811
            } else if a == '\u{9023}' {
                463
            } else if a == '\u{90CE}' {
                1082
            } else if a == '\u{FF11}' {
                -270
            } else if a == '\u{FF99}' {
                -673
            } else if a == '\u{FF9D}' {
                -496
            } else {
                0
            }
        },
        Elem::E1 => 306,
        _ => 0,
    }
}


#[verifier::opaque]
pub open spec fn spec_bw1(a: Elem, b: Elem) -> int {
    match (a, b) {
        (Elem::B1, Elem::Ch(b)) => {
            if b == '\u{3042}' {
                1404
            } else if b == '\u{540C}' {
                542
            } else {
                0
            }
        },
        (Elem::Ch(a), Elem::Ch(b)) => {
            if a == '\u{002C}' && b == '\u{3068}' {
                660
            } else if a == '\u{002C}' && b == '\u{540C}' {
                727
            } else if a == '\u{3001}' && b == '\u{3068}' {
                660
            } else if a == '\u{3001}' && b == '\u{540C}' {
                727
            } else if a == '\u{300D}' && b == '\u{3068}' {
                1682
            } else if a == '\u{3042}' && b == '\u{3063}' {
                1505
            } else if a == '\u{3044}' && b == '\u{3046}' {
                1743
            } else if a == '\u{3044}' && b == '\u{3063}' {
                -2055
            } else if a == '\u{3044}' && b == '\u{308B}' {
                672
            } else if a == '\u{3046}' && b == '\u{3057}' {
                -4817
            } else if a == '\u{3046}' && b == '\u{3093}' {
                665
            } else if a == '\u{304B}' && b == '\u{3089}' {
                3472
            } else if a == '\u{304C}' && b == '\u{3089}' {
                600
            } else if a == '\u{3053}' && b == '\u{3046}' {
                -790
            } else if a == '\u{3053}' && b == '\u{3068}' {
                2083
            } else if a == '\u{3053}' && b == '\u{3093}' {
                -1262
            } else if a == '\u{3055}' && b == '\u{3089}' {
                -4143
            } else if a == '\u{3055}' && b == '\u{3093}' {
                4573
            } else if a == '\u{3057}' && b == '\u{305F}' {
                2641
            } else if a == '\u{3057}' && b == '\u{3066}' {
                1104
            } else if a == '\u{3059}' && b == '\u{3067}' {
                -3399
            } else if a == '\u{305D}' && b == '\u{3053}' {
                1977
            } else if a == '\u{305D}' && b == '\u{308C}' {
                -871
            } else if a == '\u{305F}' && b == '\u{3061}' {
                1122
            } else if a == '\u{305F}' && b == '\u{3081}' {
                601
            } else if a == '\u{3063}' && b == '\u{305F}' {
                3463
            } else if a == '\u{3064}' && b == '\u{3044}' {
                -802
            } else if a == '\u{3066}' && b == '\u{3044}' {
                805
            } else if a == '\u{3066}' && b == '\u{304D}' {
                1249
            } else if a == '\u{3067}' && b == '\u{304D}' {
                1127
            } else if a == '\u{3067}' && b == '\u{3059}' {
                3445
            } else if a == '\u{3067}' && b == '\u{306F}' {
                844
            } else if a == '\u{3068}' && b == '\u{3044}' {
                -4915
            } else if a == '\u{3068}' && b == '\u{307F}' {
                1922
            } else if a == '\u{3069}' && b == '\u{3053}' {
                3887
            } else if a == '\u{306A}' && b == '\u{3044}' {
                5713
            } else if a == '\u{306A}' && b == '\u{3063}' {
                3015
            } else if a == '\u{306A}' && b == '\u{3069}' {
                7379
            } else if a == '\u{306A}' && b == '\u{3093}' {
                -1113
            } else if a == '\u{306B}' && b == '\u{3057}' {
                2468
            } else if a == '\u{306B}' && b == '\u{306F}' {
                1498
            } else if a == '\u{306B}' && b == '\u{3082}' {
                1671
            } else if a == '\u{306B}' && b == '\u{5BFE}' {
                -912
            } else if a == '\u{306E}' && b == '\u{4E00}' {
                -501
            } else if a == '\u{306E}' && b == '\u{4E2D}' {
                741
            } else if a == '\u{307E}' && b == '\u{305B}' {
                2448
            } else if a == '\u{307E}' && b == '\u{3067}' {
                1711
            } else if a == '\u{307E}' && b == '\u{307E}' {
                2600
            } else if a == '\u{307E}' && b == '\u{308B}' {
                -2155
            } else if a == '\u{3084}' && b == '\u{3080}' {
                -1947
            } else if a == '\u{3088}' && b == '\u{3063}' {
                -2565
            } else if a == '\u{308C}' && b == '\u{305F}' {
                2369
            } else if a == '\u{308C}' && b == '\u{3067}' {
                -913
            } else if a == '\u{3092}' && b == '\u{3057}' {
                1860
            } else if a == '\u{3092}' && b == '\u{898B}' {
                731
            } else if a == '\u{4EA1}' && b == '\u{304F}' {
                -1886
            } else if a == '\u{4EAC}' && b == '\u{90FD}' {
                2558
            } else if a == '\u{53D6}' && b == '\u{308A}' {
                -2784
            } else if a == '\u{5927}' && b == '\u{304D}' {
                -2604
            } else if a == '\u{5927}' && b == '\u{962A}' {
                1497
            } else if a == '\u{5E73}' && b == '\u{65B9}' {
                -2314
            } else if a == '\u{5F15}' && b == '\u{304D}' {
                -1336
            } else if a == '\u{65E5}' && b == '\u{672C}' {
                -195
            } else if a == '\u{672C}' && b == '\u{5F53}' {
                -2423
            } else if a == '\u{6BCE}' && b == '\u{65E5}' {
                -2113
            } else if a == '\u{76EE}' && b == '\u{6307}' {
                -724
            } else if a == '\u{FF63}' && b == '\u{3068}' {
                1682
            } else {
                0
            }
        },
        _ => 0,
    }
}

pub fn bw1(a: Elem, b: Elem) -> (r: i32)
    ensures
        r as int == spec_bw1(a, b),
{
    proof {
        reveal(spec_bw1);
    }
    match (a, b) {
        (Elem::B1, Elem::Ch(b)) => {
            if b == '\u{3042}' {
                1404
            } else if b == '\u{540C}' {
                542
            } else {
                0
            }
        },
        (Elem::Ch(a), Elem::Ch(b)) => {
            if a == '\u{002C}' && b == '\u{3068}' {
                660
            } else if a == '\u{002C}' && b == '\u{540C}' {
                727
            } else if a == '\u{3001}' && b == '\u{3068}' {
                660
            } else if a == '\u{3001}' && b == '\u{540C}' {
                727
            } else if a == '\u{300D}' && b == '\u{3068}' {
                1682
            } else if a == '\u{3042}' && b == '\u{3063}' {
                1505
            } else if a == '\u{3044}' && b == '\u{3046}' {
                1743
            } else if a == '\u{3044}' && b == '\u{3063}' {
                -2055
            } else if a == '\u{3044}' && b == '\u{308B}' {
                672
            } else if a == '\u{3046}' && b == '\u{3057}' {
                -4817
            } else if a == '\u{3046}' && b == '\u{3093}' {
                665
            } else if a == '\u{304B}' && b == '\u{3089}' {
                3472
            } else if a == '\u{304C}' && b == '\u{3089}' {
                600
            } else if a == '\u{3053}' && b == '\u{3046}' {
                -790
            } else if a == '\u{3053}' && b == '\u{3068}' {
                2083
            } else if a == '\u{3053}' && b == '\u{3093}' {
                -1262
            } else if a == '\u{3055}' && b == '\u{3089}' {
                -4143
            } else if a == '\u{3055}' && b == '\u{3093}' {
                4573
            } else if a == '\u{3057}' && b == '\u{305F}' {
                2641
            } else if a == '\u{3057}' && b == '\u{3066}' {
                1104
            } else if a == '\u{3059}' && b == '\u{3067}' {
                -3399
            } else if a == '\u{305D}' && b == '\u{3053}' {
                1977
            } else if a == '\u{305D}' && b == '\u{308C}' {
                -871
            } else if a == '\u{305F}' && b == '\u{3061}' {
                1122
            } else if a == '\u{305F}' && b == '\u{3081}' {
                601
            } else if a == '\u{3063}' && b == '\u{305F}' {
                3463
            } else if a == '\u{3064}' && b == '\u{3044}' {
                -802
            } else if a == '\u{3066}' && b == '\u{3044}' {
                805
            } else if a == '\u{3066}' && b == '\u{304D}' {
                1249
            } else if a == '\u{3067}' && b == '\u{304D}' {
                1127
            } else if a == '\u{3067}' && b == '\u{3059}' {
                3445
            } else if a == '\u{3067}' && b == '\u{306F}' {
                844
            } else if a == '\u{3068}' && b == '\u{3044}' {
                -4915
            } else if a == '\u{3068}' && b == '\u{307F}' {
                1922
            } else if a == '\u{3069}' && b == '\u{3053}' {
                3887
            } else if a == '\u{306A}' && b == '\u{3044}' {
                5713
            } else if a == '\u{306A}' && b == '\u{3063}' {
                3015
            } else if a == '\u{306A}' && b == '\u{3069}' {
                7379
            } else if a == '\u{306A}' && b == '\u{3093}' {
                -1113
            } else if a == '\u{306B}' && b == '\u{3057}' {
                2468
            } else if a == '\u{306B}' && b == '\u{306F}' {
                1498
            } else if a == '\u{306B}' && b == '\u{3082}' {
                1671
            } else if a == '\u{306B}' && b == '\u{5BFE}' {
                -912
            } else if a == '\u{306E}' && b == '\u{4E00}' {
                -501
            } else if a == '\u{306E}' && b == '\u{4E2D}' {
                741
            } else if a == '\u{307E}' && b == '\u{305B}' {
                2448
            } else if a == '\u{307E}' && b == '\u{3067}' {
                1711
            } else if a == '\u{307E}' && b == '\u{307E}' {
                2600
            } else if a == '\u{307E}' && b == '\u{308B}' {
                -2155
            } else if a == '\u{3084}' && b == '\u{3080}' {
                -1947
            } else if a == '\u{3088}' && b == '\u{3063}' {
                -2565
            } else if a == '\u{308C}' && b == '\u{305F}' {
                2369
            } else if a == '\u{308C}' && b == '\u{3067}' {
                -913
            } else if a == '\u{3092}' && b == '\u{3057}' {
                1860
            } else if a == '\u{3092}' && b == '\u{898B}' {
                731
            } else if a == '\u{4EA1}' && b == '\u{304F}' {
                -1886
            } else if a == '\u{4EAC}' && b == '\u{90FD}' {
                2558
            } else if a == '\u{53D6}' && b == '\u{308A}' {
                -2784
            } else if a == '\u{5927}' && b == '\u{304D}' {
                -2604
            } else if a == '\u{5927}' && b == '\u{962A}' {
                1497
            } else if a == '\u{5E73}' && b == '\u{65B9}' {
                -2314
            } else if a == '\u{5F15}' && b == '\u{304D}' {
                -1336
            } else if a == '\u{65E5}' && b == '\u{672C}' {
                -195
            } else if a == '\u{672C}' && b == '\u{5F53}' {
                -2423
            } else if a == '\u{6BCE}' && b == '\u{65E5}' {
                -2113
            } else if a == '\u{76EE}' && b == '\u{6307}' {
                -724
            } else if a == '\u{FF63}' && b == '\u{3068}' {
                1682
            } else {
                0
            }
        },
        _ => 0,
    }
}


#[verifier::opaque]
pub open spec fn spec_bw2(a: Elem, b: Elem) -> int {
    match (a, b) {
        (Elem::Ch(a), Elem::Ch(b)) => {
            if a == '\u{002E}' && b == '\u{002E}' {
                -11822
            } else if a == '\u{0031}' && b == '\u{0031}' {
                -669
            } else if a == '\u{2015}' && b == '\u{2015}' {
                -5730
            } else if a == '\u{2212}' && b == '\u{2212}' {
                -13175
            } else if a == '\u{3044}' && b == '\u{3046}' {
                -1609
            } else if a == '\u{3046}' && b == '\u{304B}' {
                2490
            } else if a == '\u{304B}' && b == '\u{3057}' {
                -1350
            } else if a == '\u{304B}' && b == '\u{3082}' {
                -602
            } else if a == '\u{304B}' && b == '\u{3089}' {
                -7194
            } else if a == '\u{304B}' && b == '\u{308C}' {
                4612
            } else if a == '\u{304C}' && b == '\u{3044}' {
                853
            } else if a == '\u{304C}' && b == '\u{3089}' {
                -3198
            } else if a == '\u{304D}' && b == '\u{305F}' {
                1941
            } else if a == '\u{304F}' && b == '\u{306A}' {
                -1597
            } else if a == '\u{3053}' && b == '\u{3068}' {
                -8392
            } else if a == '\u{3053}' && b == '\u{306E}' {
                -4193
            } else if a == '\u{3055}' && b == '\u{305B}' {
                4533
            } else if a == '\u{3055}' && b == '\u{308C}' {
                13168
            } else if a == '\u{3055}' && b == '\u{3093}' {
                -3977
            } else if a == '\u{3057}' && b == '\u{3044}' {
                -1819
            } else if a == '\u{3057}' && b == '\u{304B}' {
                -545
            } else if a == '\u{3057}' && b == '\u{305F}' {
                5078
            } else if a == '\u{3057}' && b == '\u{3066}' {
                972
            } else if a == '\u{3057}' && b == '\u{306A}' {
                939
            } else if a == '\u{305D}' && b == '\u{306E}' {
                -3744
            } else if a == '\u{305F}' && b == '\u{3044}' {
                -1253
            } else if a == '\u{305F}' && b == '\u{305F}' {
                -662
            } else if a == '\u{305F}' && b == '\u{3060}' {
                -3857
            } else if a == '\u{305F}' && b == '\u{3061}' {
                -786
            } else if a == '\u{305F}' && b == '\u{3068}' {
                1224
            } else if a == '\u{305F}' && b == '\u{306F}' {
                -939
            } else if a == '\u{3063}' && b == '\u{305F}' {
                4589
            } else if a == '\u{3063}' && b == '\u{3066}' {
                1647
            } else if a == '\u{3063}' && b == '\u{3068}' {
                -2094
            } else if a == '\u{3066}' && b == '\u{3044}' {
                6144
            } else if a == '\u{3066}' && b == '\u{304D}' {
                3640
            } else if a == '\u{3066}' && b == '\u{304F}' {
                2551
            } else if a == '\u{3066}' && b == '\u{306F}' {
                -3110
            } else if a == '\u{3066}' && b == '\u{3082}' {
                -3065
            } else if a == '\u{3067}' && b == '\u{3044}' {
                2666
            } else if a == '\u{3067}' && b == '\u{304D}' {
                -1528
            } else if a == '\u{3067}' && b == '\u{3057}' {
                -3828
            } else if a == '\u{3067}' && b == '\u{3059}' {
                -4761
            } else if a == '\u{3067}' && b == '\u{3082}' {
                -4203
            } else if a == '\u{3068}' && b == '\u{3044}' {
                1890
            } else if a == '\u{3068}' && b == '\u{3053}' {
                -1746
            } else if a == '\u{3068}' && b == '\u{3068}' {
                -2279
            } else if a == '\u{3068}' && b == '\u{306E}' {
                720
            } else if a == '\u{3068}' && b == '\u{307F}' {
                5168
            } else if a == '\u{3068}' && b == '\u{3082}' {
                -3941
            } else if a == '\u{306A}' && b == '\u{3044}' {
                -2488
            } else if a == '\u{306A}' && b == '\u{304C}' {
                -1313
            } else if a == '\u{306A}' && b == '\u{3069}' {
                -6509
            } else if a == '\u{306A}' && b == '\u{306E}' {
                2614
            } else if a == '\u{306A}' && b == '\u{3093}' {
                3099
            } else if a == '\u{306B}' && b == '\u{304A}' {
                -1615
            } else if a == '\u{306B}' && b == '\u{3057}' {
                2748
            } else if a == '\u{306B}' && b == '\u{306A}' {
                2454
            } else if a == '\u{306B}' && b == '\u{3088}' {
                -7236
            } else if a == '\u{306B}' && b == '\u{5BFE}' {
                -14943
            } else if a == '\u{306B}' && b == '\u{5F93}' {
                -4688
            } else if a == '\u{306B}' && b == '\u{95A2}' {
                -11388
            } else if a == '\u{306E}' && b == '\u{304B}' {
                2093
            } else if a == '\u{306E}' && b == '\u{3067}' {
                -7059
            } else if a == '\u{306E}' && b == '\u{306B}' {
                -6041
            } else if a == '\u{306E}' && b == '\u{306E}' {
                -6125
            } else if a == '\u{306F}' && b == '\u{3044}' {
                1073
            } else if a == '\u{306F}' && b == '\u{304C}' {
                -1033
            } else if a == '\u{306F}' && b == '\u{305A}' {
                -2532
            } else if a == '\u{3070}' && b == '\u{308C}' {
                1813
            } else if a == '\u{307E}' && b == '\u{3057}' {
                -1316
            } else if a == '\u{307E}' && b == '\u{3067}' {
                -6621
            } else if a == '\u{307E}' && b == '\u{308C}' {
                5409
            } else if a == '\u{3081}' && b == '\u{3066}' {
                -3153
            } else if a == '\u{3082}' && b == '\u{3044}' {
                2230
            } else if a == '\u{3082}' && b == '\u{306E}' {
                -10713
            } else if a == '\u{3089}' && b == '\u{304B}' {
                -944
            } else if a == '\u{3089}' && b == '\u{3057}' {
                -1611
            } else if a == '\u{3089}' && b == '\u{306B}' {
                -1897
            } else if a == '\u{308A}' && b == '\u{3057}' {
                651
            } else if a == '\u{308A}' && b == '\u{307E}' {
                1620
            } else if a == '\u{308C}' && b == '\u{305F}' {
                4270
            } else if a == '\u{308C}' && b == '\u{3066}' {
                849
            } else if a == '\u{308C}' && b == '\u{3070}' {
                4114
            } else if a == '\u{308D}' && b == '\u{3046}' {
                6067
            } else if a == '\u{308F}' && b == '\u{308C}' {
                7901
            } else if a == '\u{3092}' && b == '\u{901A}' {
                -11877
            } else if a == '\u{3093}' && b == '\u{3060}' {
                728
            } else if a == '\u{3093}' && b == '\u{306A}' {
                -4115
            } else if a == '\u{4E00}' && b == '\u{4EBA}' {
                602
            } else if a == '\u{4E00}' && b == '\u{65B9}' {
                -1375
            } else if a == '\u{4E00}' && b == '\u{65E5}' {
                970
            } else if a == '\u{4E00}' && b == '\u{90E8}' {
                -1051
            } else if a == '\u{4E0A}' && b == '\u{304C}' {
                -4479
            } else if a == '\u{4F1A}' && b == '\u{793E}' {
                -1116
            } else if a == '\u{51FA}' && b == '\u{3066}' {
                2163
            } else if a == '\u{5206}' && b == '\u{306E}' {
                -7758
            } else if a == '\u{540C}' && b == '\u{515A}' {
                970
            } else if a == '\u{540C}' && b == '\u{65E5}' {
                -913
            } else if a == '\u{5927}' && b == '\u{962A}' {
                -2471
            } else if a == '\u{59D4}' && b == '\u{54E1}' {
                -1250
            } else if a == '\u{5C11}' && b == '\u{306A}' {
                -1050
            } else if a == '\u{5E74}' && b == '\u{5EA6}' {
                -8669
            } else if a == '\u{5E74}' && b == '\u{9593}' {
                -1626
            } else if a == '\u{5E9C}' && b == '\u{770C}' {
                -2363
            } else if a == '\u{624B}' && b == '\u{6A29}' {
                -1982
            } else if a == '\u{65B0}' && b == '\u{805E}' {
                -4066
            } else if a == '\u{65E5}' && b == '\u{65B0}' {
                -722
            } else if a == '\u{65E5}' && b == '\u{672C}' {
                -7068
            } else if a == '\u{65E5}' && b == '\u{7C73}' {
                3372
            } else if a == '\u{66DC}' && b == '\u{65E5}' {
                -601
            } else if a == '\u{671D}' && b == '\u{9BAE}' {
                -2355
            } else if a == '\u{672C}' && b == '\u{4EBA}' {
                -2697
            } else if a == '\u{6771}' && b == '\u{4EAC}' {
                -1543
            } else if a == '\u{7136}' && b == '\u{3068}' {
                -1384
            } else if a == '\u{793E}' && b == '\u{4F1A}' {
                -1276
            } else if a == '\u{7ACB}' && b == '\u{3066}' {
                -990
            } else if a == '\u{7B2C}' && b == '\u{306B}' {
                -1612
            } else if a == '\u{7C73}' && b == '\u{56FD}' {
                -4268
            } else if a == '\u{FF11}' && b == '\u{FF11}' {
                -669
            } else if a == '\u{FF78}' && b == '\u{FF9E}' {
                1319
            } else {
                0
            }
        },
        _ => 0,
    }
}

pub fn bw2(a: Elem, b: Elem) -> (r: i32)
    ensures
        r as int == spec_bw2(a, b),
{
    proof {
        reveal(spec_bw2);
    }
    match (a, b) {
        (Elem::Ch(a), Elem::Ch(b)) => {
            if a == '\u{002E}' && b == '\u{002E}' {
                -11822
            } else if a == '\u{0031}' && b == '\u{0031}' {
                -669
            } else if a == '\u{2015}' && b == '\u{2015}' {
                -5730
            } else if a == '\u{2212}' && b == '\u{2212}' {
                -13175
            } else if a == '\u{3044}' && b == '\u{3046}' {
                -1609
            } else if a == '\u{3046}' && b == '\u{304B}' {
                2490
            } else if a == '\u{304B}' && b == '\u{3057}' {
                -1350
            } else if a == '\u{304B}' && b == '\u{3082}' {
                -602
            } else if a == '\u{304B}' && b == '\u{3089}' {
                -7194
            } else if a == '\u{304B}' && b == '\u{308C}' {
                4612
            } else if a == '\u{304C}' && b == '\u{3044}' {
                853
            } else if a == '\u{304C}' && b == '\u{3089}' {
                -3198
            } else if a == '\u{304D}' && b == '\u{305F}' {
                1941
            } else if a == '\u{304F}' && b == '\u{306A}' {
                -1597
            } else if a == '\u{3053}' && b == '\u{3068}' {
                -8392
            } else if a == '\u{3053}' && b == '\u{306E}' {
                -4193
            } else if a == '\u{3055}' && b == '\u{305B}' {
                4533
            } else if a == '\u{3055}' && b == '\u{308C}' {
                13168
            } else if a == '\u{3055}' && b == '\u{3093}' {
                -3977
            } else if a == '\u{3057}' && b == '\u{3044}' {
                -1819
            } else if a == '\u{3057}' && b == '\u{304B}' {
                -545
            } else if a == '\u{3057}' && b == '\u{305F}' {
                5078
            } else if a == '\u{3057}' && b == '\u{3066}' {
                972
            } else if a == '\u{3057}' && b == '\u{306A}' {
                939
            } else if a == '\u{305D}' && b == '\u{306E}' {
                -3744
            } else if a == '\u{305F}' && b == '\u{3044}' {
                -1253
            } else if a == '\u{305F}' && b == '\u{305F}' {
                -662
            } else if a == '\u{305F}' && b == '\u{3060}' {
                -3857
            } else if a == '\u{305F}' && b == '\u{3061}' {
                -786
            } else if a == '\u{305F}' && b == '\u{3068}' {
                1224
            } else if a == '\u{305F}' && b == '\u{306F}' {
                -939
            } else if a == '\u{3063}' && b == '\u{305F}' {
                4589
            } else if a == '\u{3063}' && b == '\u{3066}' {
                1647
            } else if a == '\u{3063}' && b == '\u{3068}' {
                -2094
            } else if a == '\u{3066}' && b == '\u{3044}' {
                6144
            } else if a == '\u{3066}' && b == '\u{304D}' {
                3640
            } else if a == '\u{3066}' && b == '\u{304F}' {
                2551
            } else if a == '\u{3066}' && b == '\u{306F}' {
                -3110
            } else if a == '\u{3066}' && b == '\u{3082}' {
                -3065
            } else if a == '\u{3067}' && b == '\u{3044}' {
                2666
            } else if a == '\u{3067}' && b == '\u{304D}' {
                -1528
            } else if a == '\u{3067}' && b == '\u{3057}' {
                -3828
            } else if a == '\u{3067}' && b == '\u{3059}' {
                -4761
            } else if a == '\u{3067}' && b == '\u{3082}' {
                -4203
            } else if a == '\u{3068}' && b == '\u{3044}' {
                1890
            } else if a == '\u{3068}' && b == '\u{3053}' {
                -1746
            } else if a == '\u{3068}' && b == '\u{3068}' {
                -2279
            } else if a == '\u{3068}' && b == '\u{306E}' {
                720
            } else if a == '\u{3068}' && b == '\u{307F}' {
                5168
            } else if a == '\u{3068}' && b == '\u{3082}' {
                -3941
            } else if a == '\u{306A}' && b == '\u{3044}' {
                -2488
            } else if a == '\u{306A}' && b == '\u{304C}' {
                -1313
            } else if a == '\u{306A}' && b == '\u{3069}' {
                -6509
            } else if a == '\u{306A}' && b == '\u{306E}' {
                2614
            } else if a == '\u{306A}' && b == '\u{3093}' {
                3099
            } else if a == '\u{306B}' && b == '\u{304A}' {
                -1615
            } else if a == '\u{306B}' && b == '\u{3057}' {
                2748
            } else if a == '\u{306B}' && b == '\u{306A}' {
                2454
            } else if a == '\u{306B}' && b == '\u{3088}' {
                -7236
            } else if a == '\u{306B}' && b == '\u{5BFE}' {
                -14943
            } else if a == '\u{306B}' && b == '\u{5F93}' {
                -4688
            } else if a == '\u{306B}' && b == '\u{95A2}' {
                -11388
            } else if a == '\u{306E}' && b == '\u{304B}' {
                2093
            } else if a == '\u{306E}' && b == '\u{3067}' {
                -7059
            } else if a == '\u{306E}' && b == '\u{306B}' {
                -6041
            } else if a == '\u{306E}' && b == '\u{306E}' {
                -6125
            } else if a == '\u{306F}' && b == '\u{3044}' {
                1073
            } else if a == '\u{306F}' && b == '\u{304C}' {
                -1033
            } else if a == '\u{306F}' && b == '\u{305A}' {
                -2532
            } else if a == '\u{3070}' && b == '\u{308C}' {
                1813
            } else if a == '\u{307E}' && b == '\u{3057}' {
                -1316
            } else if a == '\u{307E}' && b == '\u{3067}' {
                -6621
            } else if a == '\u{307E}' && b == '\u{308C}' {
                5409
            } else if a == '\u{3081}' && b == '\u{3066}' {
                -3153
            } else if a == '\u{3082}' && b == '\u{3044}' {
                2230
            } else if a == '\u{3082}' && b == '\u{306E}' {
                -10713
            } else if a == '\u{3089}' && b == '\u{304B}' {
                -944
            } else if a == '\u{3089}' && b == '\u{3057}' {
                -1611
            } else if a == '\u{3089}' && b == '\u{306B}' {
                -1897
            } else if a == '\u{308A}' && b == '\u{3057}' {
                651
            } else if a == '\u{308A}' && b == '\u{307E}' {
                1620
            } else if a == '\u{308C}' && b == '\u{305F}' {
                4270
            } else if a == '\u{308C}' && b == '\u{3066}' {
                849
            } else if a == '\u{308C}' && b == '\u{3070}' {
                4114
            } else if a == '\u{308D}' && b == '\u{3046}' {
                6067
            } else if a == '\u{308F}' && b == '\u{308C}' {
                7901
            } else if a == '\u{3092}' && b == '\u{901A}' {
                -11877
            } else if a == '\u{3093}' && b == '\u{3060}' {
                728
            } else if a == '\u{3093}' && b == '\u{306A}' {
                -4115
            } else if a == '\u{4E00}' && b == '\u{4EBA}' {
                602
            } else if a == '\u{4E00}' && b == '\u{65B9}' {
                -1375
            } else if a == '\u{4E00}' && b == '\u{65E5}' {
                970
            } else if a == '\u{4E00}' && b == '\u{90E8}' {
                -1051
            } else if a == '\u{4E0A}' && b == '\u{304C}' {
                -4479
            } else if a == '\u{4F1A}' && b == '\u{793E}' {
                -1116
            } else if a == '\u{51FA}' && b == '\u{3066}' {
                2163
            } else if a == '\u{5206}' && b == '\u{306E}' {
                -7758
            } else if a == '\u{540C}' && b == '\u{515A}' {
                970
            } else if a == '\u{540C}' && b == '\u{65E5}' {
                -913
            } else if a == '\u{5927}' && b == '\u{962A}' {
                -2471
            } else if a == '\u{59D4}' && b == '\u{54E1}' {
                -1250
            } else if a == '\u{5C11}' && b == '\u{306A}' {
                -1050
            } else if a == '\u{5E74}' && b == '\u{5EA6}' {
                -8669
            } else if a == '\u{5E74}' && b == '\u{9593}' {
                -1626
            } else if a == '\u{5E9C}' && b == '\u{770C}' {
                -2363
            } else if a == '\u{624B}' && b == '\u{6A29}' {
                -1982
            } else if a == '\u{65B0}' && b == '\u{805E}' {
                -4066
            } else if a == '\u{65E5}' && b == '\u{65B0}' {
                -722
            } else if a == '\u{65E5}' && b == '\u{672C}' {
                -7068
            } else if a == '\u{65E5}' && b == '\u{7C73}' {
                3372
            } else if a == '\u{66DC}' && b == '\u{65E5}' {
                -601
            } else if a == '\u{671D}' && b == '\u{9BAE}' {
                -2355
            } else if a == '\u{672C}' && b == '\u{4EBA}' {
                -2697
            } else if a == '\u{6771}' && b == '\u{4EAC}' {
                -1543
            } else if a == '\u{7136}' && b == '\u{3068}' {
                -1384
            } else if a == '\u{793E}' && b == '\u{4F1A}' {
                -1276
            } else if a == '\u{7ACB}' && b == '\u{3066}' {
                -990
            } else if a == '\u{7B2C}' && b == '\u{306B}' {
                -1612
            } else if a == '\u{7C73}' && b == '\u{56FD}' {
                -4268
            } else if a == '\u{FF11}' && b == '\u{FF11}' {
                -669
            } else if a == '\u{FF78}' && b == '\u{FF9E}' {
                1319
            } else {
                0
            }
        },
        _ => 0,
    }
}


#[verifier::opaque]
pub open spec fn spec_bw3(a: Elem, b: Elem) -> int {
    match (a, b) {
        (Elem::Ch(a), Elem::Ch(b)) => {
            if a == '\u{3042}' && b == '\u{305F}' {
                -2194
            } else if a == '\u{3042}' && b == '\u{308A}' {
                719
            } else if a == '\u{3042}' && b == '\u{308B}' {
                3846
            } else if a == '\u{3044}' && b == '\u{002E}' {
                -1185
            } else if a == '\u{3044}' && b == '\u{3002}' {
                -1185
            } else if a == '\u{3044}' && b == '\u{3044}' {
                5308
            } else if a == '\u{3044}' && b == '\u{3048}' {
                2079
            } else if a == '\u{3044}' && b == '\u{304F}' {
                3029
            } else if a == '\u{3044}' && b == '\u{305F}' {
                2056
            } else if a == '\u{3044}' && b == '\u{3063}' {
                1883
            } else if a == '\u{3044}' && b == '\u{308B}' {
                5600
            } else if a == '\u{3044}' && b == '\u{308F}' {
                1527
            } else if a == '\u{3046}' && b == '\u{3061}' {
                1117
            } else if a == '\u{3046}' && b == '\u{3068}' {
                4798
            } else if a == '\u{3048}' && b == '\u{3068}' {
                1454
            } else if a == '\u{304B}' && b == '\u{002E}' {
                2857
            } else if a == '\u{304B}' && b == '\u{3002}' {
                2857
            } else if a == '\u{304B}' && b == '\u{3051}' {
                -743
            } else if a == '\u{304B}' && b == '\u{3063}' {
                -4098
            } else if a == '\u{304B}' && b == '\u{306B}' {
                -669
            } else if a == '\u{304B}' && b == '\u{3089}' {
                6520
            } else if a == '\u{304B}' && b == '\u{308A}' {
                -2670
            } else if a == '\u{304C}' && b == '\u{002C}' {
                1816
            } else if a == '\u{304C}' && b == '\u{3001}' {
                1816
            } else if a == '\u{304C}' && b == '\u{304D}' {
                -4855
            } else if a == '\u{304C}' && b == '\u{3051}' {
                -1127
            } else if a == '\u{304C}' && b == '\u{3063}' {
                -913
            } else if a == '\u{304C}' && b == '\u{3089}' {
                -4977
            } else if a == '\u{304C}' && b == '\u{308A}' {
                -2064
            } else if a == '\u{304D}' && b == '\u{305F}' {
                1645
            } else if a == '\u{3051}' && b == '\u{3069}' {
                1374
            } else if a == '\u{3053}' && b == '\u{3068}' {
                7397
            } else if a == '\u{3053}' && b == '\u{306E}' {
                1542
            } else if a == '\u{3053}' && b == '\u{308D}' {
                -2757
            } else if a == '\u{3055}' && b == '\u{3044}' {
                -714
            } else if a == '\u{3055}' && b == '\u{3092}' {
                976
            } else if a == '\u{3057}' && b == '\u{002C}' {
                1557
            } else if a == '\u{3057}' && b == '\u{3001}' {
                1557
            } else if a == '\u{3057}' && b == '\u{3044}' {
                -3714
            } else if a == '\u{3057}' && b == '\u{305F}' {
                3562
            } else if a == '\u{3057}' && b == '\u{3066}' {
                1449
            } else if a == '\u{3057}' && b == '\u{306A}' {
                2608
            } else if a == '\u{3057}' && b == '\u{307E}' {
                1200
            } else if a == '\u{3059}' && b == '\u{002E}' {
                -1310
            } else if a == '\u{3059}' && b == '\u{3002}' {
                -1310
            } else if a == '\u{3059}' && b == '\u{308B}' {
                6521
            } else if a == '\u{305A}' && b == '\u{002C}' {
                3426
            } else if a == '\u{305A}' && b == '\u{3001}' {
                3426
            } else if a == '\u{305A}' && b == '\u{306B}' {
                841
            } else if a == '\u{305D}' && b == '\u{3046}' {
                428
            } else if a == '\u{305F}' && b == '\u{002E}' {
                8875
            } else if a == '\u{305F}' && b == '\u{3002}' {
                8875
            } else if a == '\u{305F}' && b == '\u{3044}' {
                -594
            } else if a == '\u{305F}' && b == '\u{306E}' {
                812
            } else if a == '\u{305F}' && b == '\u{308A}' {
                -1183
            } else if a == '\u{305F}' && b == '\u{308B}' {
                -853
            } else if a == '\u{3060}' && b == '\u{002E}' {
                4098
            } else if a == '\u{3060}' && b == '\u{3002}' {
                4098
            } else if a == '\u{3060}' && b == '\u{3063}' {
                1004
            } else if a == '\u{3063}' && b == '\u{305F}' {
                -4748
            } else if a == '\u{3063}' && b == '\u{3066}' {
                300
            } else if a == '\u{3066}' && b == '\u{3044}' {
                6240
            } else if a == '\u{3066}' && b == '\u{304A}' {
                855
            } else if a == '\u{3066}' && b == '\u{3082}' {
                302
            } else if a == '\u{3067}' && b == '\u{3059}' {
                1437
            } else if a == '\u{3067}' && b == '\u{306B}' {
                -1482
            } else if a == '\u{3067}' && b == '\u{306F}' {
                2295
            } else if a == '\u{3068}' && b == '\u{3046}' {
                -1387
            } else if a == '\u{3068}' && b == '\u{3057}' {
                2266
            } else if a == '\u{3068}' && b == '\u{306E}' {
                541
            } else if a == '\u{3068}' && b == '\u{3082}' {
                -3543
            } else if a == '\u{3069}' && b == '\u{3046}' {
                4664
            } else if a == '\u{306A}' && b == '\u{3044}' {
                1796
            } else if a == '\u{306A}' && b == '\u{304F}' {
                -903
            } else if a == '\u{306A}' && b == '\u{3069}' {
                2135
            } else if a == '\u{306B}' && b == '\u{002C}' {
                -1021
            } else if a == '\u{306B}' && b == '\u{3001}' {
                -1021
            } else if a == '\u{306B}' && b == '\u{3057}' {
                1771
            } else if a == '\u{306B}' && b == '\u{306A}' {
                1906
            } else if a == '\u{306B}' && b == '\u{306F}' {
                2644
            } else if a == '\u{306E}' && b == '\u{002C}' {
                -724
            } else if a == '\u{306E}' && b == '\u{3001}' {
                -724
            } else if a == '\u{306E}' && b == '\u{5B50}' {
                -1000
            } else if a == '\u{306F}' && b == '\u{002C}' {
                1337
            } else if a == '\u{306F}' && b == '\u{3001}' {
                1337
            } else if a == '\u{3079}' && b == '\u{304D}' {
                2181
            } else if a == '\u{307E}' && b == '\u{3057}' {
                1113
            } else if a == '\u{307E}' && b == '\u{3059}' {
                6943
            } else if a == '\u{307E}' && b == '\u{3063}' {
                -1549
            } else if a == '\u{307E}' && b == '\u{3067}' {
                6154
            } else if a == '\u{307E}' && b == '\u{308C}' {
                -793
            } else if a == '\u{3089}' && b == '\u{3057}' {
                1479
            } else if a == '\u{3089}' && b == '\u{308C}' {
                6820
            } else if a == '\u{308B}' && b == '\u{308B}' {
                3818
            } else if a == '\u{308C}' && b == '\u{002C}' {
                854
            } else if a == '\u{308C}' && b == '\u{3001}' {
                854
            } else if a == '\u{308C}' && b == '\u{305F}' {
                1850
            } else if a == '\u{308C}' && b == '\u{3066}' {
                1375
            } else if a == '\u{308C}' && b == '\u{3070}' {
                -3246
            } else if a == '\u{308C}' && b == '\u{308B}' {
                1091
            } else if a == '\u{308F}' && b == '\u{308C}' {
                -605
            } else if a == '\u{3093}' && b == '\u{3060}' {
                606
            } else if a == '\u{3093}' && b == '\u{3067}' {
                798
            } else if a == '\u{30AB}' && b == '\u{6708}' {
                990
            } else if a == '\u{4F1A}' && b == '\u{8B70}' {
                860
            } else if a == '\u{5165}' && b == '\u{308A}' {
                1232
            } else if a == '\u{5927}' && b == '\u{4F1A}' {
                2217
            } else if a == '\u{59CB}' && b == '\u{3081}' {
                1681
            } else if a == '\u{5E02}' && b == '\u{0020}' {
                965
            } else if a == '\u{65B0}' && b == '\u{805E}' {
                -5055
            } else if a == '\u{65E5}' && b == '\u{002C}' {
                974
            } else if a == '\u{65E5}' && b == '\u{3001}' {
                974
            } else if a == '\u{793E}' && b == '\u{4F1A}' {
                2024
            } else if a == '\u{FF76}' && b == '\u{6708}' {
                990
            } else {
                0
            }
        },
        _ => 0,
    }
}

pub fn bw3(a: Elem, b: Elem) -> (r: i32)
    ensures
        r as int == spec_bw3(a, b),
{
    proof {
        reveal(spec_bw3);
    }
    match (a, b) {
        (Elem::Ch(a), Elem::Ch(b)) => {
            if a == '\u{3042}' && b == '\u{305F}' {
                -2194
            } else if a == '\u{3042}' && b == '\u{308A}' {
                719
            } else if a == '\u{3042}' && b == '\u{308B}' {
                3846
            } else if a == '\u{3044}' && b == '\u{002E}' {
                -1185
            } else if a == '\u{3044}' && b == '\u{3002}' {
                -1185
            } else if a == '\u{3044}' && b == '\u{3044}' {
                5308
            } else if a == '\u{3044}' && b == '\u{3048}' {
                2079
            } else if a == '\u{3044}' && b == '\u{304F}' {
                3029
            } else if a == '\u{3044}' && b == '\u{305F}' {
                2056
            } else if a == '\u{3044}' && b == '\u{3063}' {
                1883
            } else if a == '\u{3044}' && b == '\u{308B}' {
                5600
            } else if a == '\u{3044}' && b == '\u{308F}' {
                1527
            } else if a == '\u{3046}' && b == '\u{3061}' {
                1117
            } else if a == '\u{3046}' && b == '\u{3068}' {
                4798
            } else if a == '\u{3048}' && b == '\u{3068}' {
                1454
            } else if a == '\u{304B}' && b == '\u{002E}' {
                2857
            } else if a == '\u{304B}' && b == '\u{3002}' {
                2857
            } else if a == '\u{304B}' && b == '\u{3051}' {
                -743
            } else if a == '\u{304B}' && b == '\u{3063}' {
                -4098
            } else if a == '\u{304B}' && b == '\u{306B}' {
                -669
            } else if a == '\u{304B}' && b == '\u{3089}' {
                6520
            } else if a == '\u{304B}' && b == '\u{308A}' {
                -2670
            } else if a == '\u{304C}' && b == '\u{002C}' {
                1816
            } else if a == '\u{304C}' && b == '\u{3001}' {
                1816
            } else if a == '\u{304C}' && b == '\u{304D}' {
                -4855
            } else if a == '\u{304C}' && b == '\u{3051}' {
                -1127
            } else if a == '\u{304C}' && b == '\u{3063}' {
                -913
            } else if a == '\u{304C}' && b == '\u{3089}' {
                -4977
            } else if a == '\u{304C}' && b == '\u{308A}' {
                -2064
            } else if a == '\u{304D}' && b == '\u{305F}' {
                1645
            } else if a == '\u{3051}' && b == '\u{3069}' {
                1374
            } else if a == '\u{3053}' && b == '\u{3068}' {
                7397
            } else if a == '\u{3053}' && b == '\u{306E}' {
                1542
            } else if a == '\u{3053}' && b == '\u{308D}' {
                -2757
            } else if a == '\u{3055}' && b == '\u{3044}' {
                -714
            } else if a == '\u{3055}' && b == '\u{3092}' {
                976
            } else if a == '\u{3057}' && b == '\u{002C}' {
                1557
            } else if a == '\u{3057}' && b == '\u{3001}' {
                1557
            } else if a == '\u{3057}' && b == '\u{3044}' {
                -3714
            } else if a == '\u{3057}' && b == '\u{305F}' {
                3562
            } else if a == '\u{3057}' && b == '\u{3066}' {
                1449
            } else if a == '\u{3057}' && b == '\u{306A}' {
                2608
            } else if a == '\u{3057}' && b == '\u{307E}' {
                1200
            } else if a == '\u{3059}' && b == '\u{002E}' {
                -1310
            } else if a == '\u{3059}' && b == '\u{3002}' {
                -1310
            } else if a == '\u{3059}' && b == '\u{308B}' {
                6521
            } else if a == '\u{305A}' && b == '\u{002C}' {
                3426
            } else if a == '\u{305A}' && b == '\u{3001}' {
                3426
            } else if a == '\u{305A}' && b == '\u{306B}' {
                841
            } else if a == '\u{305D}' && b == '\u{3046}' {
                428
            } else if a == '\u{305F}' && b == '\u{002E}' {
                8875
            } else if a == '\u{305F}' && b == '\u{3002}' {
                8875
            } else if a == '\u{305F}' && b == '\u{3044}' {
                -594
            } else if a == '\u{305F}' && b == '\u{306E}' {
                812
            } else if a == '\u{305F}' && b == '\u{308A}' {
                -1183
            } else if a == '\u{305F}' && b == '\u{308B}' {
                -853
            } else if a == '\u{3060}' && b == '\u{002E}' {
                4098
            } else if a == '\u{3060}' && b == '\u{3002}' {
                4098
            } else if a == '\u{3060}' && b == '\u{3063}' {
                1004
            } else if a == '\u{3063}' && b == '\u{305F}' {
                -4748
            } else if a == '\u{3063}' && b == '\u{3066}' {
                300
            } else if a == '\u{3066}' && b == '\u{3044}' {
                6240
            } else if a == '\u{3066}' && b == '\u{304A}' {
                855
            } else if a == '\u{3066}' && b == '\u{3082}' {
                302
            } else if a == '\u{3067}' && b == '\u{3059}' {
                1437
            } else if a == '\u{3067}' && b == '\u{306B}' {
                -1482
            } else if a == '\u{3067}' && b == '\u{306F}' {
                2295
            } else if a == '\u{3068}' && b == '\u{3046}' {
                -1387
            } else if a == '\u{3068}' && b == '\u{3057}' {
                2266
            } else if a == '\u{3068}' && b == '\u{306E}' {
                541
            } else if a == '\u{3068}' && b == '\u{3082}' {
                -3543
            } else if a == '\u{3069}' && b == '\u{3046}' {
                4664
            } else if a == '\u{306A}' && b == '\u{3044}' {
                1796
            } else if a == '\u{306A}' && b == '\u{304F}' {
                -903
            } else if a == '\u{306A}' && b == '\u{3069}' {
                2135
            } else if a == '\u{306B}' && b == '\u{002C}' {
                -1021
            } else if a == '\u{306B}' && b == '\u{3001}' {
                -1021
            } else if a == '\u{306B}' && b == '\u{3057}' {
                1771
            } else if a == '\u{306B}' && b == '\u{306A}' {
                1906
            } else if a == '\u{306B}' && b == '\u{306F}' {
                2644
            } else if a == '\u{306E}' && b == '\u{002C}' {
                -724
            } else if a == '\u{306E}' && b == '\u{3001}' {
                -724
            } else if a == '\u{306E}' && b == '\u{5B50}' {
                -1000
            } else if a == '\u{306F}' && b == '\u{002C}' {
                1337
            } else if a == '\u{306F}' && b == '\u{3001}' {
                1337
            } else if a == '\u{3079}' && b == '\u{304D}' {
                2181
            } else if a == '\u{307E}' && b == '\u{3057}' {
                1113
            } else if a == '\u{307E}' && b == '\u{3059}' {
                6943
            } else if a == '\u{307E}' && b == '\u{3063}' {
                -1549
            } else if a == '\u{307E}' && b == '\u{3067}' {
                6154
            } else if a == '\u{307E}' && b == '\u{308C}' {
                -793
            } else if a == '\u{3089}' && b == '\u{3057}' {
                1479
            } else if a == '\u{3089}' && b == '\u{308C}' {
                6820
            } else if a == '\u{308B}' && b == '\u{308B}' {
                3818
            } else if a == '\u{308C}' && b == '\u{002C}' {
                854
            } else if a == '\u{308C}' && b == '\u{3001}' {
                854
            } else if a == '\u{308C}' && b == '\u{305F}' {
                1850
            } else if a == '\u{308C}' && b == '\u{3066}' {
                1375
            } else if a == '\u{308C}' && b == '\u{3070}' {
                -3246
            } else if a == '\u{308C}' && b == '\u{308B}' {
                1091
            } else if a == '\u{308F}' && b == '\u{308C}' {
                -605
            } else if a == '\u{3093}' && b == '\u{3060}' {
                606
            } else if a == '\u{3093}' && b == '\u{3067}' {
                798
            } else if a == '\u{30AB}' && b == '\u{6708}' {
                990
            } else if a == '\u{4F1A}' && b == '\u{8B70}' {
                860
            } else if a == '\u{5165}' && b == '\u{308A}' {
                1232
            } else if a == '\u{5927}' && b == '\u{4F1A}' {
                2217
            } else if a == '\u{59CB}' && b == '\u{3081}' {
                1681
            } else if a == '\u{5E02}' && b == '\u{0020}' {
                965
            } else if a == '\u{65B0}' && b == '\u{805E}' {
                -5055
            } else if a == '\u{65E5}' && b == '\u{002C}' {
                974
            } else if a == '\u{65E5}' && b == '\u{3001}' {
                974
            } else if a == '\u{793E}' && b == '\u{4F1A}' {
                2024
            } else if a == '\u{FF76}' && b == '\u{6708}' {
                990
            } else {
                0
            }
        },
        _ => 0,
    }
}


#[verifier::opaque]
pub open spec fn spec_tw1(a: Elem, b: Elem, c: Elem) -> int {
    match (a, b, c) {
        (Elem::Ch(a), Elem::Ch(b), Elem::Ch(c)) => {
            if a == '\u{306B}' && b == '\u{3064}' && c == '\u{3044}' {
                -4681
            } else if a == '\u{6771}' && b == '\u{4EAC}' && c == '\u{90FD}' {
                2026
            } else {
                0
            }
        },
        _ => 0,
    }
}

pub fn tw1(a: Elem, b: Elem, c: Elem) -> (r: i32)
    ensures
        r as int == spec_tw1(a, b, c),
{
    proof {
        reveal(spec_tw1);
    }
    match (a, b, c) {
        (Elem::Ch(a), Elem::Ch(b), Elem::Ch(c)) => {
            if a == '\u{306B}' && b == '\u{3064}' && c == '\u{3044}' {
                -4681
            } else if a == '\u{6771}' && b == '\u{4EAC}' && c == '\u{90FD}' {
                2026
            } else {
                0
            }
        },
        _ => 0,
    }
}


#[verifier::opaque]
pub open spec fn spec_tw2(a: Elem, b: Elem, c: Elem) -> int {
    match (a, b, c) {
        (Elem::Ch(a), Elem::Ch(b), Elem::Ch(c)) => {
            if a == '\u{3042}' && b == '\u{308B}' && c == '\u{7A0B}' {
                -2049
            } else if a == '\u{3044}' && b == '\u{3063}' && c == '\u{305F}' {
                -1256
            } else if a == '\u{3053}' && b == '\u{308D}' && c == '\u{304C}' {
                -2434
            } else if a == '\u{3057}' && b == '\u{3087}' && c == '\u{3046}' {
                3873
            } else if a == '\u{305D}' && b == '\u{306E}' && c == '\u{5F8C}' {
                -4430
            } else if a == '\u{3060}' && b == '\u{3063}' && c == '\u{3066}' {
                -1049
            } else if a == '\u{3066}' && b == '\u{3044}' && c == '\u{305F}' {
                1833
            } else if a == '\u{3068}' && b == '\u{3057}' && c == '\u{3066}' {
                -4657
            } else if a == '\u{3068}' && b == '\u{3082}' && c == '\u{306B}' {
                -4517
            } else if a == '\u{3082}' && b == '\u{306E}' && c == '\u{3067}' {
                1882
            } else if a == '\u{4E00}' && b == '\u{6C17}' && c == '\u{306B}' {
                -792
            } else if a == '\u{521D}' && b == '\u{3081}' && c == '\u{3066}' {
                -1512
            } else if a == '\u{540C}' && b == '\u{6642}' && c == '\u{306B}' {
                -8097
            } else if a == '\u{5927}' && b == '\u{304D}' && c == '\u{306A}' {
                -1255
            } else if a == '\u{5BFE}' && b == '\u{3057}' && c == '\u{3066}' {
                -2721
            } else if a == '\u{793E}' && b == '\u{4F1A}' && c == '\u{515A}' {
                -3216
            } else {
                0
            }
        },
        _ => 0,
    }
}

pub fn tw2(a: Elem, b: Elem, c: Elem) -> (r: i32)
    ensures
        r as int == spec_tw2(a, b, c),
{
    proof {
        reveal(spec_tw2);
    }
    match (a, b, c) {
        (Elem::Ch(a), Elem::Ch(b), Elem::Ch(c)) => {
            if a == '\u{3042}' && b == '\u{308B}' && c == '\u{7A0B}' {
                -2049
            } else if a == '\u{3044}' && b == '\u{3063}' && c == '\u{305F}' {
                -1256
            } else if a == '\u{3053}' && b == '\u{308D}' && c == '\u{304C}' {
                -2434
            } else if a == '\u{3057}' && b == '\u{3087}' && c == '\u{3046}' {
                3873
            } else if a == '\u{305D}' && b == '\u{306E}' && c == '\u{5F8C}' {
                -4430
            } else if a == '\u{3060}' && b == '\u{3063}' && c == '\u{3066}' {
                -1049
            } else if a == '\u{3066}' && b == '\u{3044}' && c == '\u{305F}' {
                1833
            } else if a == '\u{3068}' && b == '\u{3057}' && c == '\u{3066}' {
                -4657
            } else if a == '\u{3068}' && b == '\u{3082}' && c == '\u{306B}' {
                -4517
            } else if a == '\u{3082}' && b == '\u{306E}' && c == '\u{3067}' {
                1882
            } else if a == '\u{4E00}' && b == '\u{6C17}' && c == '\u{306B}' {
                -792
            } else if a == '\u{521D}' && b == '\u{3081}' && c == '\u{3066}' {
                -1512
            } else if a == '\u{540C}' && b == '\u{6642}' && c == '\u{306B}' {
                -8097
            } else if a == '\u{5927}' && b == '\u{304D}' && c == '\u{306A}' {
                -1255
            } else if a == '\u{5BFE}' && b == '\u{3057}' && c == '\u{3066}' {
                -2721
            } else if a == '\u{793E}' && b == '\u{4F1A}' && c == '\u{515A}' {
                -3216
            } else {
                0
            }
        },
        _ => 0,
    }
}


#[verifier::opaque]
pub open spec fn spec_tw3(a: Elem, b: Elem, c: Elem) -> int {
    match (a, b, c) {
        (Elem::Ch(a), Elem::Ch(b), Elem::Ch(c)) => {
            if a == '\u{3044}' && b == '\u{305F}' && c == '\u{3060}' {
                -1734
            } else if a == '\u{3057}' && b == '\u{3066}' && c == '\u{3044}' {
                1314
            } else if a == '\u{3068}' && b == '\u{3057}' && c == '\u{3066}' {
                -4314
            } else if a == '\u{306B}' && b == '\u{3064}' && c == '\u{3044}' {
                -5483
            } else if a == '\u{306B}' && b == '\u{3068}' && c == '\u{3063}' {
                -5989
            } else if a == '\u{306B}' && b == '\u{5F53}' && c == '\u{305F}' {
                -6247
            } else if a == '\u{306E}' && b == '\u{3067}' && c == '\u{002C}' {
                -727
            } else if a == '\u{306E}' && b == '\u{3067}' && c == '\u{3001}' {
                -727
            } else if a == '\u{306E}' && b == '\u{3082}' && c == '\u{306E}' {
                -600
            } else if a == '\u{308C}' && b == '\u{304B}' && c == '\u{3089}' {
                -3752
            } else if a == '\u{5341}' && b == '\u{4E8C}' && c == '\u{6708}' {
                -2287
            } else {
                0
            }
        },
        _ => 0,
    }
}

pub fn tw3(a: Elem, b: Elem, c: Elem) -> (r: i32)
    ensures
        r as int == spec_tw3(a, b, c),
{
    proof {
        reveal(spec_tw3);
    }
    match (a, b, c) {
        (Elem::Ch(a), Elem::Ch(b), Elem::Ch(c)) => {
            if a == '\u{3044}' && b == '\u{305F}' && c == '\u{3060}' {
                -1734
            } else if a == '\u{3057}' && b == '\u{3066}' && c == '\u{3044}' {
                1314
            } else if a == '\u{3068}' && b == '\u{3057}' && c == '\u{3066}' {
                -4314
            } else if a == '\u{306B}' && b == '\u{3064}' && c == '\u{3044}' {
                -5483
            } else if a == '\u{306B}' && b == '\u{3068}' && c == '\u{3063}' {
                -5989
            } else if a == '\u{306B}' && b == '\u{5F53}' && c == '\u{305F}' {
                -6247
            } else if a == '\u{306E}' && b == '\u{3067}' && c == '\u{002C}' {
                -727
            } else if a == '\u{306E}' && b == '\u{3067}' && c == '\u{3001}' {
                -727
            } else if a == '\u{306E}' && b == '\u{3082}' && c == '\u{306E}' {
                -600
            } else if a == '\u{308C}' && b == '\u{304B}' && c == '\u{3089}' {
                -3752
            } else if a == '\u{5341}' && b == '\u{4E8C}' && c == '\u{6708}' {
                -2287
            } else {
                0
            }
        },
        _ => 0,
    }
}


#[verifier::opaque]
pub open spec fn spec_tw4(a: Elem, b: Elem, c: Elem) -> int {
    match (a, b, c) {
        (Elem::Ch(a), Elem::Ch(b), Elem::Ch(c)) => {
            if a == '\u{3044}' && b == '\u{3046}' && c == '\u{002E}' {
                8576
            } else if a == '\u{3044}' && b == '\u{3046}' && c == '\u{3002}' {
                8576
            } else if a == '\u{304B}' && b == '\u{3089}' && c == '\u{306A}' {
                -2348
            } else if a == '\u{3057}' && b == '\u{3066}' && c == '\u{3044}' {
                2958
            } else if a == '\u{305F}' && b == '\u{304C}' && c == '\u{002C}' {
                1516
            } else if a == '\u{305F}' && b == '\u{304C}' && c == '\u{3001}' {
                1516
            } else if a == '\u{3066}' && b == '\u{3044}' && c == '\u{308B}' {
                1538
            } else if a == '\u{3068}' && b == '\u{3044}' && c == '\u{3046}' {
                1349
            } else if a == '\u{307E}' && b == '\u{3057}' && c == '\u{305F}' {
                5543
            } else if a == '\u{307E}' && b == '\u{305B}' && c == '\u{3093}' {
                1097
            } else if a == '\u{3088}' && b == '\u{3046}' && c == '\u{3068}' {
                -4258
            } else if a == '\u{3088}' && b == '\u{308B}' && c == '\u{3068}' {
                5865
            } else {
                0
            }
        },
        _ => 0,
    }
}

pub fn tw4(a: Elem, b: Elem, c: Elem) -> (r: i32)
    ensures
        r as int == spec_tw4(a, b, c),
{
    proof {
        reveal(spec_tw4);
    }
    match (a, b, c) {
        (Elem::Ch(a), Elem::Ch(b), Elem::Ch(c)) => {
            if a == '\u{3044}' && b == '\u{3046}' && c == '\u{002E}' {
                8576
            } else if a == '\u{3044}' && b == '\u{3046}' && c == '\u{3002}' {
                8576
            } else if a == '\u{304B}' && b == '\u{3089}' && c == '\u{306A}' {
                -2348
            } else if a == '\u{3057}' && b == '\u{3066}' && c == '\u{3044}' {
                2958
            } else if a == '\u{305F}' && b == '\u{304C}' && c == '\u{002C}' {
                1516
            } else if a == '\u{305F}' && b == '\u{304C}' && c == '\u{3001}' {
                1516
            } else if a == '\u{3066}' && b == '\u{3044}' && c == '\u{308B}' {
                1538
            } else if a == '\u{3068}' && b == '\u{3044}' && c == '\u{3046}' {
                1349
            } else if a == '\u{307E}' && b == '\u{3057}' && c == '\u{305F}' {
                5543
            } else if a == '\u{307E}' && b == '\u{305B}' && c == '\u{3093}' {
                1097
            } else if a == '\u{3088}' && b == '\u{3046}' && c == '\u{3068}' {
                -4258
            } else if a == '\u{3088}' && b == '\u{308B}' && c == '\u{3068}' {
                5865
            } else {
                0
            }
        },
        _ => 0,
    }
}


#[verifier::opaque]
pub open spec fn spec_uc1(a: Category) -> int {
    match a {
        Category::Latin => 484,
        Category::Kana => 93,
        Category::KanjiNumeral => 645,
        Category::Other => -505,
        _ => 0,
    }
}

pub fn uc1(a: Category) -> (r: i32)
    ensures
        r as int == spec_uc1(a),
{
    proof {
        reveal(spec_uc1);
    }
    match a {
        Category::Latin => 484,
        Category::Kana => 93,
        Category::KanjiNumeral => 645,
        Category::Other => -505,
        _ => 0,
    }
}


#[verifier::opaque]
pub open spec fn spec_uc2(a: Category) -> int {
    match a {
        Category::Latin => 819,
        Category::Han => 1059,
        Category::Hiragana => 409,
        Category::KanjiNumeral => 3987,
        Category::Digit => 5775,
        Category::Other => 646,
        _ => 0,
    }
}

pub fn uc2(a: Category) -> (r: i32)
    ensures
        r as int == spec_uc2(a),
{
    proof {
        reveal(spec_uc2);
    }
    match a {
        Category::Latin => 819,
        Category::Han => 1059,
        Category::Hiragana => 409,
        Category::KanjiNumeral => 3987,
        Category::Digit => 5775,
        Category::Other => 646,
        _ => 0,
    }
}


#[verifier::opaque]
pub open spec fn spec_uc3(a: Category) -> int {
    match a {
        Category::Latin => -1370,
        Category::Hiragana => 2311,
        _ => 0,
    }
}

pub fn uc3(a: Category) -> (r: i32)
    ensures
        r as int == spec_uc3(a),
{
    proof {
        reveal(spec_uc3);
    }
    match a {
        Category::Latin => -1370,
        Category::Hiragana => 2311,
        _ => 0,
    }
}


#[verifier::opaque]
pub open spec fn spec_uc4(a: Category) -> int {
    match a {
        Category::Latin => -2643,
        Category::Han => 1809,
        Category::Hiragana => -1032,
        Category::Kana => -3450,
        Category::KanjiNumeral => 3565,
        Category::Digit => 3876,
        Category::Other => 6646,
    }
}

pub fn uc4(a: Category) -> (r: i32)
    ensures
        r as int == spec_uc4(a),
{
    proof {
        reveal(spec_uc4);
    }
    match a {
        Category::Latin => -2643,
        Category::Han => 1809,
        Category::Hiragana => -1032,
        Category::Kana => -3450,
        Category::KanjiNumeral => 3565,
        Category::Digit => 3876,
        Category::Other => 6646,
    }
}


#[verifier::opaque]
pub open spec fn spec_uc5(a: Category) -> int {
    match a {
        Category::Han => 313,
        Category::Hiragana => -1238,
        Category::Kana => -799,
        Category::KanjiNumeral => 539,
        Category::Other => -831,
        _ => 0,
    }
}

pub fn uc5(a: Category) -> (r: i32)
    ensures
        r as int == spec_uc5(a),
{
    proof {
        reveal(spec_uc5);
    }
    match a {
        Category::Han => 313,
        Category::Hiragana => -1238,
        Category::Kana => -799,
        Category::KanjiNumeral => 539,
        Category::Other => -831,
        _ => 0,
    }
}


#[verifier::opaque]
pub open spec fn spec_uc6(a: Category) -> int {
    match a {
        Category::Han => -506,
        Category::Hiragana => -253,
        Category::Kana => 87,
        Category::KanjiNumeral => 247,
        Category::Other => -387,
        _ => 0,
    }
}

pub fn uc6(a: Category) -> (r: i32)
    ensures
        r as int == spec_uc6(a),
{
    proof {
        reveal(spec_uc6);
    }
    match a {
        Category::Han => -506,
        Category::Hiragana => -253,
        Category::Kana => 87,
        Category::KanjiNumeral => 247,
        Category::Other => -387,
        _ => 0,
    }
}


#[verifier::opaque]
pub open spec fn spec_bc1(a: Category, b: Category) -> int {
    match (a, b) {
        (Category::Han, Category::Han) => 6,
        (Category::Hiragana, Category::Hiragana) => 2461,
        (Category::Kana, Category::Han) => 406,
        (Category::Other, Category::Han) => -1378,
        _ => 0,
    }
}

pub fn bc1(a: Category, b: Category) -> (r: i32)
    ensures
        r as int == spec_bc1(a, b),
{
    proof {
        reveal(spec_bc1);
    }
    match (a, b) {
        (Category::Han, Category::Han) => 6,
        (Category::Hiragana, Category::Hiragana) => 2461,
        (Category::Kana, Category::Han) => 406,
        (Category::Other, Category::Han) => -1378,
        _ => 0,
    }
}


#[verifier::opaque]
pub open spec fn spec_bc2(a: Category, b: Category) -> int {
    match (a, b) {
        (Category::Latin, Category::Latin) => -3267,
        (Category::Latin, Category::Hiragana) => 2744,
        (Category::Latin, Category::Digit) => -878,
        (Category::Han, Category::Han) => -4070,
        (Category::Han, Category::KanjiNumeral) => -1711,
        (Category::Han, Category::Digit) => 4012,
        (Category::Han, Category::Other) => 3761,
        (Category::Hiragana, Category::Latin) => 1327,
        (Category::Hiragana, Category::Han) => -1184,
        (Category::Hiragana, Category::Hiragana) => -1332,
        (Category::Hiragana, Category::Kana) => 1721,
        (Category::Hiragana, Category::Other) => 5492,
        (Category::Kana, Category::Hiragana) => 3831,
        (Category::Kana, Category::Kana) => -8741,
        (Category::KanjiNumeral, Category::Han) => -3132,
        (Category::KanjiNumeral, Category::Kana) => 3334,
        (Category::Other, Category::Other) => -2920,
        _ => 0,
    }
}

pub fn bc2(a: Category, b: Category) -> (r: i32)
    ensures
        r as int == spec_bc2(a, b),
{
    proof {
        reveal(spec_bc2);
    }
    match (a, b) {
        (Category::Latin, Category::Latin) => -3267,
        (Category::Latin, Category::Hiragana) => 2744,
        (Category::Latin, Category::Digit) => -878,
        (Category::Han, Category::Han) => -4070,
        (Category::Han, Category::KanjiNumeral) => -1711,
        (Category::Han, Category::Digit) => 4012,
        (Category::Han, Category::Other) => 3761,
        (Category::Hiragana, Category::Latin) => 1327,
        (Category::Hiragana, Category::Han) => -1184,
        (Category::Hiragana, Category::Hiragana) => -1332,
        (Category::Hiragana, Category::Kana) => 1721,
        (Category::Hiragana, Category::Other) => 5492,
        (Category::Kana, Category::Hiragana) => 3831,
        (Category::Kana, Category::Kana) => -8741,
        (Category::KanjiNumeral, Category::Han) => -3132,
        (Category::KanjiNumeral, Category::Kana) => 3334,
        (Category::Other, Category::Other) => -2920,
        _ => 0,
    }
}


#[verifier::opaque]
pub open spec fn spec_bc3(a: Category, b: Category) -> int {
    match (a, b) {
        (Category::Han, Category::Han) => 996,
        (Category::Han, Category::Hiragana) => 626,
        (Category::Han, Category::Kana) => -721,
        (Category::Han, Category::Digit) => -1307,
        (Category::Han, Category::Other) => -836,
        (Category::Hiragana, Category::Han) => -301,
        (Category::Kana, Category::Kana) => 2762,
        (Category::KanjiNumeral, Category::Kana) => 1079,
        (Category::KanjiNumeral, Category::KanjiNumeral) => 4034,
        (Category::Other, Category::Latin) => -1652,
        (Category::Other, Category::Han) => 266,
        _ => 0,
    }
}

pub fn bc3(a: Category, b: Category) -> (r: i32)
    ensures
        r as int == spec_bc3(a, b),
{
    proof {
        reveal(spec_bc3);
    }
    match (a, b) {
        (Category::Han, Category::Han) => 996,
        (Category::Han, Category::Hiragana) => 626,
        (Category::Han, Category::Kana) => -721,
        (Category::Han, Category::Digit) => -1307,
        (Category::Han, Category::Other) => -836,
        (Category::Hiragana, Category::Han) => -301,
        (Category::Kana, Category::Kana) => 2762,
        (Category::KanjiNumeral, Category::Kana) => 1079,
        (Category::KanjiNumeral, Category::KanjiNumeral) => 4034,
        (Category::Other, Category::Latin) => -1652,
        (Category::Other, Category::Han) => 266,
        _ => 0,
    }
}


#[verifier::opaque]
pub open spec fn spec_tc1(a: Category, b: Category, c: Category) -> int {
    match (a, b, c) {
        (Category::Latin, Category::Latin, Category::Latin) => 1093,
        (Category::Han, Category::Han, Category::Han) => 1029,
        (Category::Han, Category::Han, Category::KanjiNumeral) => 580,
        (Category::Han, Category::Hiragana, Category::Hiragana) => 998,
        (Category::Han, Category::Other, Category::Han) => -390,
        (Category::Han, Category::Other, Category::KanjiNumeral) => -331,
        (Category::Hiragana, Category::Han, Category::Hiragana) => 1169,
        (Category::Hiragana, Category::Other, Category::Han) => -142,
        (Category::Hiragana, Category::Other, Category::Hiragana) => -1015,
        (Category::Hiragana, Category::Other, Category::KanjiNumeral) => 467,
        (Category::KanjiNumeral, Category::KanjiNumeral, Category::Han) => 187,
        (Category::Other, Category::Other, Category::Hiragana) => -1832,
        _ => 0,
    }
}

pub fn tc1(a: Category, b: Category, c: Category) -> (r: i32)
    ensures
        r as int == spec_tc1(a, b, c),
{
    proof {
        reveal(spec_tc1);
    }
    match (a, b, c) {
        (Category::Latin, Category::Latin, Category::Latin) => 1093,
        (Category::Han, Category::Han, Category::Han) => 1029,
        (Category::Han, Category::Han, Category::KanjiNumeral) => 580,
        (Category::Han, Category::Hiragana, Category::Hiragana) => 998,
        (Category::Han, Category::Other, Category::Han) => -390,
        (Category::Han, Category::Other, Category::KanjiNumeral) => -331,
        (Category::Hiragana, Category::Han, Category::Hiragana) => 1169,
        (Category::Hiragana, Category::Other, Category::Han) => -142,
        (Category::Hiragana, Category::Other, Category::Hiragana) => -1015,
        (Category::Hiragana, Category::Other, Category::KanjiNumeral) => 467,
        (Category::KanjiNumeral, Category::KanjiNumeral, Category::Han) => 187,
        (Category::Other, Category::Other, Category::Hiragana) => -1832,
        _ => 0,
    }
}


#[verifier::opaque]
pub open spec fn spec_tc2(a: Category, b: Category, c: Category) -> int {
    match (a, b, c) {
        (Category::Han, Category::Han, Category::Other) => 2088,
        (Category::Han, Category::Hiragana, Category::Hiragana) => -1023,
        (Category::Han, Category::KanjiNumeral, Category::KanjiNumeral) => -1154,
        (Category::Hiragana, Category::Han, Category::Hiragana) => -1965,
        (Category::Kana, Category::Kana, Category::Han) => 703,
        (Category::Other, Category::Hiragana, Category::Hiragana) => -2649,
        _ => 0,
    }
}

pub fn tc2(a: Category, b: Category, c: Category) -> (r: i32)
    ensures
        r as int == spec_tc2(a, b, c),
{
    proof {
        reveal(spec_tc2);
    }
    match (a, b, c) {
        (Category::Han, Category::Han, Category::Other) => 2088,
        (Category::Han, Category::Hiragana, Category::Hiragana) => -1023,
        (Category::Han, Category::KanjiNumeral, Category::KanjiNumeral) => -1154,
        (Category::Hiragana, Category::Han, Category::Hiragana) => -1965,
        (Category::Kana, Category::Kana, Category::Han) => 703,
        (Category::Other, Category::Hiragana, Category::Hiragana) => -2649,
        _ => 0,
    }
}


#[verifier::opaque]
pub open spec fn spec_tc3(a: Category, b: Category, c: Category) -> int {
    match (a, b, c) {
        (Category::Latin, Category::Latin, Category::Latin) => -294,
        (Category::Han, Category::Han, Category::Han) => 346,
        (Category::Han, Category::Han, Category::Hiragana) => -341,
        (Category::Han, Category::Hiragana, Category::Hiragana) => -1088,
        (Category::Han, Category::Hiragana, Category::Kana) => 731,
        (Category::Han, Category::Other, Category::Han) => -1486,
        (Category::Hiragana, Category::Han, Category::Han) => 128,
        (Category::Hiragana, Category::Han, Category::Hiragana) => -3041,
        (Category::Hiragana, Category::Han, Category::Other) => -1935,
        (Category::Hiragana, Category::Hiragana, Category::Han) => -825,
        (Category::Hiragana, Category::Hiragana, Category::KanjiNumeral) => -1035,
        (Category::Hiragana, Category::Other, Category::Hiragana) => -542,
        (Category::Kana, Category::Han, Category::Han) => -1216,
        (Category::Kana, Category::Kana, Category::Latin) => 491,
        (Category::Kana, Category::Kana, Category::Han) => -1217,
        (Category::Kana, Category::Other, Category::Kana) => -1009,
        (Category::KanjiNumeral, Category::Han, Category::Han) => -2694,
        (Category::KanjiNumeral, Category::Han, Category::KanjiNumeral) => -457,
        (Category::KanjiNumeral, Category::Han, Category::Other) => 123,
        (Category::KanjiNumeral, Category::KanjiNumeral, Category::Han) => -471,
        (Category::Digit, Category::Digit, Category::Han) => -1689,
        (Category::Digit, Category::Digit, Category::Other) => 662,
        (Category::Other, Category::Han, Category::Other) => -3393,
        _ => 0,
    }
}

pub fn tc3(a: Category, b: Category, c: Category) -> (r: i32)
    ensures
        r as int == spec_tc3(a, b, c),
{
    proof {
        reveal(spec_tc3);
    }
    match (a, b, c) {
        (Category::Latin, Category::Latin, Category::Latin) => -294,
        (Category::Han, Category::Han, Category::Han) => 346,
        (Category::Han, Category::Han, Category::Hiragana) => -341,
        (Category::Han, Category::Hiragana, Category::Hiragana) => -1088,
        (Category::Han, Category::Hiragana, Category::Kana) => 731,
        (Category::Han, Category::Other, Category::Han) => -1486,
        (Category::Hiragana, Category::Han, Category::Han) => 128,
        (Category::Hiragana, Category::Han, Category::Hiragana) => -3041,
        (Category::Hiragana, Category::Han, Category::Other) => -1935,
        (Category::Hiragana, Category::Hiragana, Category::Han) => -825,
        (Category::Hiragana, Category::Hiragana, Category::KanjiNumeral) => -1035,
        (Category::Hiragana, Category::Other, Category::Hiragana) => -542,
        (Category::Kana, Category::Han, Category::Han) => -1216,
        (Category::Kana, Category::Kana, Category::Latin) => 491,
        (Category::Kana, Category::Kana, Category::Han) => -1217,
        (Category::Kana, Category::Other, Category::Kana) => -1009,
        (Category::KanjiNumeral, Category::Han, Category::Han) => -2694,
        (Category::KanjiNumeral, Category::Han, Category::KanjiNumeral) => -457,
        (Category::KanjiNumeral, Category::Han, Category::Other) => 123,
        (Category::KanjiNumeral, Category::KanjiNumeral, Category::Han) => -471,
        (Category::Digit, Category::Digit, Category::Han) => -1689,
        (Category::Digit, Category::Digit, Category::Other) => 662,
        (Category::Other, Category::Han, Category::Other) => -3393,
        _ => 0,
    }
}


#[verifier::opaque]
pub open spec fn spec_tc4(a: Category, b: Category, c: Category) -> int {
    match (a, b, c) {
        (Category::Han, Category::Han, Category::Han) => -203,
        (Category::Han, Category::Han, Category::Hiragana) => 1344,
        (Category::Han, Category::Han, Category::Kana) => 365,
        (Category::Han, Category::Han, Category::KanjiNumeral) => -122,
        (Category::Han, Category::Han, Category::Digit) => 182,
        (Category::Han, Category::Han, Category::Other) => 669,
        (Category::Han, Category::Hiragana, Category::Han) => 804,
        (Category::Han, Category::Hiragana, Category::Hiragana) => 679,
        (Category::Han, Category::Other, Category::Han) => 446,
        (Category::Hiragana, Category::Han, Category::Han) => 695,
        (Category::Hiragana, Category::Han, Category::Other) => -2324,
        (Category::Hiragana, Category::Hiragana, Category::Han) => 321,
        (Category::Hiragana, Category::Hiragana, Category::Hiragana) => 1497,
        (Category::Hiragana, Category::Hiragana, Category::Other) => 656,
        (Category::Hiragana, Category::Other, Category::Other) => 54,
        (Category::Kana, Category::Latin, Category::Kana) => 4845,
        (Category::Kana, Category::Kana, Category::Latin) => 3386,
        (Category::Kana, Category::Kana, Category::Kana) => 3065,
        (Category::KanjiNumeral, Category::Han, Category::Han) => -405,
        (Category::KanjiNumeral, Category::Han, Category::Hiragana) => 201,
        (Category::KanjiNumeral, Category::KanjiNumeral, Category::Han) => -241,
        (Category::KanjiNumeral, Category::KanjiNumeral, Category::KanjiNumeral) => 661,
        (Category::KanjiNumeral, Category::Other, Category::KanjiNumeral) => 841,
        _ => 0,
    }
}

pub fn tc4(a: Category, b: Category, c: Category) -> (r: i32)
    ensures
        r as int == spec_tc4(a, b, c),
{
    proof {
        reveal(spec_tc4);
    }
    match (a, b, c) {
        (Category::Han, Category::Han, Category::Han) => -203,
        (Category::Han, Category::Han, Category::Hiragana) => 1344,
        (Category::Han, Category::Han, Category::Kana) => 365,
        (Category::Han, Category::Han, Category::KanjiNumeral) => -122,
        (Category::Han, Category::Han, Category::Digit) => 182,
        (Category::Han, Category::Han, Category::Other) => 669,
        (Category::Han, Category::Hiragana, Category::Han) => 804,
        (Category::Han, Category::Hiragana, Category::Hiragana) => 679,
        (Category::Han, Category::Other, Category::Han) => 446,
        (Category::Hiragana, Category::Han, Category::Han) => 695,
        (Category::Hiragana, Category::Han, Category::Other) => -2324,
        (Category::Hiragana, Category::Hiragana, Category::Han) => 321,
        (Category::Hiragana, Category::Hiragana, Category::Hiragana) => 1497,
        (Category::Hiragana, Category::Hiragana, Category::Other) => 656,
        (Category::Hiragana, Category::Other, Category::Other) => 54,
        (Category::Kana, Category::Latin, Category::Kana) => 4845,
        (Category::Kana, Category::Kana, Category::Latin) => 3386,
        (Category::Kana, Category::Kana, Category::Kana) => 3065,
        (Category::KanjiNumeral, Category::Han, Category::Han) => -405,
        (Category::KanjiNumeral, Category::Han, Category::Hiragana) => 201,
        (Category::KanjiNumeral, Category::KanjiNumeral, Category::Han) => -241,
        (Category::KanjiNumeral, Category::KanjiNumeral, Category::KanjiNumeral) => 661,
        (Category::KanjiNumeral, Category::Other, Category::KanjiNumeral) => 841,
        _ => 0,
    }
}


#[verifier::opaque]
pub open spec fn spec_uq1(p: PrevTag, a: Category) -> int {
    match (p, a) {
        (PrevTag::Boundary, Category::Han) => 21,
        (PrevTag::Boundary, Category::Hiragana) => -12,
        (PrevTag::Boundary, Category::Kana) => -99,
        (PrevTag::Boundary, Category::Digit) => 142,
        (PrevTag::Boundary, Category::Other) => -56,
        (PrevTag::NoBoundary, Category::Han) => -95,
        (PrevTag::NoBoundary, Category::Hiragana) => 477,
        (PrevTag::NoBoundary, Category::Kana) => 410,
        (PrevTag::NoBoundary, Category::Other) => -2422,
        _ => 0,
    }
}

pub fn uq1(p: PrevTag, a: Category) -> (r: i32)
    ensures
        r as int == spec_uq1(p, a),
{
    proof {
        reveal(spec_uq1);
    }
    match (p, a) {
        (PrevTag::Boundary, Category::Han) => 21,
        (PrevTag::Boundary, Category::Hiragana) => -12,
        (PrevTag::Boundary, Category::Kana) => -99,
        (PrevTag::Boundary, Category::Digit) => 142,
        (PrevTag::Boundary, Category::Other) => -56,
        (PrevTag::NoBoundary, Category::Han) => -95,
        (PrevTag::NoBoundary, Category::Hiragana) => 477,
        (PrevTag::NoBoundary, Category::Kana) => 410,
        (PrevTag::NoBoundary, Category::Other) => -2422,
        _ => 0,
    }
}


#[verifier::opaque]
pub open spec fn spec_uq2(p: PrevTag, a: Category) -> int {
    match (p, a) {
        (PrevTag::Boundary, Category::Han) => 216,
        (PrevTag::Boundary, Category::Hiragana) => 113,
        (PrevTag::NoBoundary, Category::Kana) => 1759,
        _ => 0,
    }
}

pub fn uq2(p: PrevTag, a: Category) -> (r: i32)
    ensures
        r as int == spec_uq2(p, a),
{
    proof {
        reveal(spec_uq2);
    }
    match (p, a) {
        (PrevTag::Boundary, Category::Han) => 216,
        (PrevTag::Boundary, Category::Hiragana) => 113,
        (PrevTag::NoBoundary, Category::Kana) => 1759,
        _ => 0,
    }
}


#[verifier::opaque]
pub open spec fn spec_uq3(p: PrevTag, a: Category) -> int {
    match (p, a) {
        (PrevTag::Boundary, Category::Latin) => -479,
        (PrevTag::Boundary, Category::Han) => 42,
        (PrevTag::Boundary, Category::Hiragana) => 1913,
        (PrevTag::Boundary, Category::Kana) => -7198,
        (PrevTag::Boundary, Category::KanjiNumeral) => 3160,
        (PrevTag::Boundary, Category::Digit) => 6427,
        (PrevTag::Boundary, Category::Other) => 14761,
        (PrevTag::NoBoundary, Category::Hiragana) => -827,
        (PrevTag::NoBoundary, Category::Digit) => -3212,
        _ => 0,
    }
}

pub fn uq3(p: PrevTag, a: Category) -> (r: i32)
    ensures
        r as int == spec_uq3(p, a),
{
    proof {
        reveal(spec_uq3);
    }
    match (p, a) {
        (PrevTag::Boundary, Category::Latin) => -479,
        (PrevTag::Boundary, Category::Han) => 42,
        (PrevTag::Boundary, Category::Hiragana) => 1913,
        (PrevTag::Boundary, Category::Kana) => -7198,
        (PrevTag::Boundary, Category::KanjiNumeral) => 3160,
        (PrevTag::Boundary, Category::Digit) => 6427,
        (PrevTag::Boundary, Category::Other) => 14761,
        (PrevTag::NoBoundary, Category::Hiragana) => -827,
        (PrevTag::NoBoundary, Category::Digit) => -3212,
        _ => 0,
    }
}


#[verifier::opaque]
pub open spec fn spec_bq1(p: PrevTag, a: Category, b: Category) -> int {
    match (p, a, b) {
        (PrevTag::Boundary, Category::Han, Category::Han) => 1150,
        (PrevTag::Boundary, Category::Han, Category::KanjiNumeral) => 1521,
        (PrevTag::Boundary, Category::Hiragana, Category::Hiragana) => -1158,
        (PrevTag::Boundary, Category::Hiragana, Category::KanjiNumeral) => 886,
        (PrevTag::Boundary, Category::KanjiNumeral, Category::Han) => 1208,
        (PrevTag::Boundary, Category::Digit, Category::Han) => 449,
        (PrevTag::Boundary, Category::Other, Category::Han) => -91,
        (PrevTag::Boundary, Category::Other, Category::Other) => -2597,
        (PrevTag::NoBoundary, Category::Han, Category::Hiragana) => 451,
        (PrevTag::NoBoundary, Category::Hiragana, Category::Han) => -296,
        (PrevTag::NoBoundary, Category::Kana, Category::Latin) => 1851,
        (PrevTag::NoBoundary, Category::Kana, Category::Han) => -1020,
        (PrevTag::NoBoundary, Category::Kana, Category::Kana) => 904,
        (PrevTag::NoBoundary, Category::Other, Category::Other) => 2965,
        _ => 0,
    }
}

pub fn bq1(p: PrevTag, a: Category, b: Category) -> (r: i32)
    ensures
        r as int == spec_bq1(p, a, b),
{
    proof {
        reveal(spec_bq1);
    }
    match (p, a, b) {
        (PrevTag::Boundary, Category::Han, Category::Han) => 1150,
        (PrevTag::Boundary, Category::Han, Category::KanjiNumeral) => 1521,
        (PrevTag::Boundary, Category::Hiragana, Category::Hiragana) => -1158,
        (PrevTag::Boundary, Category::Hiragana, Category::KanjiNumeral) => 886,
        (PrevTag::Boundary, Category::KanjiNumeral, Category::Han) => 1208,
        (PrevTag::Boundary, Category::Digit, Category::Han) => 449,
        (PrevTag::Boundary, Category::Other, Category::Han) => -91,
        (PrevTag::Boundary, Category::Other, Category::Other) => -2597,
        (PrevTag::NoBoundary, Category::Han, Category::Hiragana) => 451,
        (PrevTag::NoBoundary, Category::Hiragana, Category::Han) => -296,
        (PrevTag::NoBoundary, Category::Kana, Category::Latin) => 1851,
        (PrevTag::NoBoundary, Category::Kana, Category::Han) => -1020,
        (PrevTag::NoBoundary, Category::Kana, Category::Kana) => 904,
        (PrevTag::NoBoundary, Category::Other, Category::Other) => 2965,
        _ => 0,
    }
}


#[verifier::opaque]
pub open spec fn spec_bq2(p: PrevTag, a: Category, b: Category) -> int {
    match (p, a, b) {
        (PrevTag::Boundary, Category::Han, Category::Han) => 118,
        (PrevTag::Boundary, Category::Han, Category::Hiragana) => -1159,
        (PrevTag::Boundary, Category::Han, Category::KanjiNumeral) => 466,
        (PrevTag::Boundary, Category::Hiragana, Category::Han) => -919,
        (PrevTag::Boundary, Category::Kana, Category::Kana) => -1720,
        (PrevTag::Boundary, Category::Kana, Category::Other) => 864,
        (PrevTag::NoBoundary, Category::Han, Category::Han) => -1139,
        (PrevTag::NoBoundary, Category::Han, Category::KanjiNumeral) => -181,
        (PrevTag::NoBoundary, Category::Hiragana, Category::Han) => 153,
        (PrevTag::Unknown, Category::Han, Category::Hiragana) => -1146,
        _ => 0,
    }
}

pub fn bq2(p: PrevTag, a: Category, b: Category) -> (r: i32)
    ensures
        r as int == spec_bq2(p, a, b),
{
    proof {
        reveal(spec_bq2);
    }
    match (p, a, b) {
        (PrevTag::Boundary, Category::Han, Category::Han) => 118,
        (PrevTag::Boundary, Category::Han, Category::Hiragana) => -1159,
        (PrevTag::Boundary, Category::Han, Category::KanjiNumeral) => 466,
        (PrevTag::Boundary, Category::Hiragana, Category::Han) => -919,
        (PrevTag::Boundary, Category::Kana, Category::Kana) => -1720,
        (PrevTag::Boundary, Category::Kana, Category::Other) => 864,
        (PrevTag::NoBoundary, Category::Han, Category::Han) => -1139,
        (PrevTag::NoBoundary, Category::Han, Category::KanjiNumeral) => -181,
        (PrevTag::NoBoundary, Category::Hiragana, Category::Han) => 153,
        (PrevTag::Unknown, Category::Han, Category::Hiragana) => -1146,
        _ => 0,
    }
}


#[verifier::opaque]
pub open spec fn spec_bq3(p: PrevTag, a: Category, b: Category) -> int {
    match (p, a, b) {
        (PrevTag::Boundary, Category::Han, Category::Han) => -792,
        (PrevTag::Boundary, Category::Han, Category::Hiragana) => 2664,
        (PrevTag::Boundary, Category::Hiragana, Category::Hiragana) => -299,
        (PrevTag::Boundary, Category::Kana, Category::Hiragana) => 419,
        (PrevTag::Boundary, Category::KanjiNumeral, Category::Han) => 937,
        (PrevTag::Boundary, Category::KanjiNumeral, Category::KanjiNumeral) => 8335,
        (PrevTag::Boundary, Category::Digit, Category::Digit) => 998,
        (PrevTag::Boundary, Category::Other, Category::Han) => 775,
        (PrevTag::NoBoundary, Category::Han, Category::Han) => 2174,
        (PrevTag::NoBoundary, Category::Han, Category::KanjiNumeral) => 439,
        (PrevTag::NoBoundary, Category::Hiragana, Category::Hiragana) => 280,
        (PrevTag::NoBoundary, Category::Kana, Category::Han) => 1798,
        (PrevTag::NoBoundary, Category::Kana, Category::Hiragana) => -793,
        (PrevTag::NoBoundary, Category::Kana, Category::Other) => -2242,
        (PrevTag::NoBoundary, Category::KanjiNumeral, Category::Han) => -2402,
        (PrevTag::NoBoundary, Category::Other, Category::Other) => 11699,
        _ => 0,
    }
}

pub fn bq3(p: PrevTag, a: Category, b: Category) -> (r: i32)
    ensures
        r as int == spec_bq3(p, a, b),
{
    proof {
        reveal(spec_bq3);
    }
    match (p, a, b) {
        (PrevTag::Boundary, Category::Han, Category::Han) => -792,
        (PrevTag::Boundary, Category::Han, Category::Hiragana) => 2664,
        (PrevTag::Boundary, Category::Hiragana, Category::Hiragana) => -299,
        (PrevTag::Boundary, Category::Kana, Category::Hiragana) => 419,
        (PrevTag::Boundary, Category::KanjiNumeral, Category::Han) => 937,
        (PrevTag::Boundary, Category::KanjiNumeral, Category::KanjiNumeral) => 8335,
        (PrevTag::Boundary, Category::Digit, Category::Digit) => 998,
        (PrevTag::Boundary, Category::Other, Category::Han) => 775,
        (PrevTag::NoBoundary, Category::Han, Category::Han) => 2174,
        (PrevTag::NoBoundary, Category::Han, Category::KanjiNumeral) => 439,
        (PrevTag::NoBoundary, Category::Hiragana, Category::Hiragana) => 280,
        (PrevTag::NoBoundary, Category::Kana, Category::Han) => 1798,
        (PrevTag::NoBoundary, Category::Kana, Category::Hiragana) => -793,
        (PrevTag::NoBoundary, Category::Kana, Category::Other) => -2242,
        (PrevTag::NoBoundary, Category::KanjiNumeral, Category::Han) => -2402,
        (PrevTag::NoBoundary, Category::Other, Category::Other) => 11699,
        _ => 0,
    }
}


#[verifier::opaque]
pub open spec fn spec_bq4(p: PrevTag, a: Category, b: Category) -> int {
    match (p, a, b) {
        (PrevTag::Boundary, Category::Han, Category::Han) => -3895,
        (PrevTag::Boundary, Category::Hiragana, Category::Han) => 3761,
        (PrevTag::Boundary, Category::Hiragana, Category::Hiragana) => -4654,
        (PrevTag::Boundary, Category::Hiragana, Category::Kana) => 1348,
        (PrevTag::Boundary, Category::Kana, Category::Kana) => -1806,
        (PrevTag::Boundary, Category::KanjiNumeral, Category::Hiragana) => -3385,
        (PrevTag::Boundary, Category::Other, Category::Other) => -12396,
        (PrevTag::NoBoundary, Category::Latin, Category::Han) => 926,
        (PrevTag::NoBoundary, Category::Han, Category::Han) => 266,
        (PrevTag::NoBoundary, Category::Han, Category::Kana) => -2036,
        (PrevTag::NoBoundary, Category::Digit, Category::Digit) => -973,
        _ => 0,
    }
}

pub fn bq4(p: PrevTag, a: Category, b: Category) -> (r: i32)
    ensures
        r as int == spec_bq4(p, a, b),
{
    proof {
        reveal(spec_bq4);
    }
    match (p, a, b) {
        (PrevTag::Boundary, Category::Han, Category::Han) => -3895,
        (PrevTag::Boundary, Category::Hiragana, Category::Han) => 3761,
        (PrevTag::Boundary, Category::Hiragana, Category::Hiragana) => -4654,
        (PrevTag::Boundary, Category::Hiragana, Category::Kana) => 1348,
        (PrevTag::Boundary, Category::Kana, Category::Kana) => -1806,
        (PrevTag::Boundary, Category::KanjiNumeral, Category::Hiragana) => -3385,
        (PrevTag::Boundary, Category::Other, Category::Other) => -12396,
        (PrevTag::NoBoundary, Category::Latin, Category::Han) => 926,
        (PrevTag::NoBoundary, Category::Han, Category::Han) => 266,
        (PrevTag::NoBoundary, Category::Han, Category::Kana) => -2036,
        (PrevTag::NoBoundary, Category::Digit, Category::Digit) => -973,
        _ => 0,
    }
}


#[verifier::opaque]
pub open spec fn spec_tq1(p: PrevTag, a: Category, b: Category, c: Category) -> int {
    match (p, a, b, c) {
        (PrevTag::Boundary, Category::Han, Category::Han, Category::Han) => -227,
        (PrevTag::Boundary, Category::Han, Category::Han, Category::Hiragana) => 316,
        (PrevTag::Boundary, Category::Han, Category::Hiragana, Category::Han) => -132,
        (PrevTag::Boundary, Category::Hiragana, Category::Han, Category::Han) => 60,
        (PrevTag::Boundary, Category::Hiragana, Category::Hiragana, Category::Hiragana) => 1595,
        (PrevTag::Boundary, Category::Digit, Category::Han, Category::Han) => -744,
        (PrevTag::Boundary, Category::Other, Category::Han, Category::Han) => 225,
        (PrevTag::Boundary, Category::Other, Category::Other, Category::Other) => -908,
        (PrevTag::NoBoundary, Category::Latin, Category::Kana, Category::Kana) => 482,
        (PrevTag::NoBoundary, Category::Han, Category::Han, Category::Han) => 281,
        (PrevTag::NoBoundary, Category::Han, Category::Hiragana, Category::Han) => 249,
        (PrevTag::NoBoundary, Category::Hiragana, Category::Han, Category::Hiragana) => 200,
        (PrevTag::NoBoundary, Category::Hiragana, Category::Hiragana, Category::Han) => -68,
        _ => 0,
    }
}

pub fn tq1(p: PrevTag, a: Category, b: Category, c: Category) -> (r: i32)
    ensures
        r as int == spec_tq1(p, a, b, c),
{
    proof {
        reveal(spec_tq1);
    }
    match (p, a, b, c) {
        (PrevTag::Boundary, Category::Han, Category::Han, Category::Han) => -227,
        (PrevTag::Boundary, Category::Han, Category::Han, Category::Hiragana) => 316,
        (PrevTag::Boundary, Category::Han, Category::Hiragana, Category::Han) => -132,
        (PrevTag::Boundary, Category::Hiragana, Category::Han, Category::Han) => 60,
        (PrevTag::Boundary, Category::Hiragana, Category::Hiragana, Category::Hiragana) => 1595,
        (PrevTag::Boundary, Category::Digit, Category::Han, Category::Han) => -744,
        (PrevTag::Boundary, Category::Other, Category::Han, Category::Han) => 225,
        (PrevTag::Boundary, Category::Other, Category::Other, Category::Other) => -908,
        (PrevTag::NoBoundary, Category::Latin, Category::Kana, Category::Kana) => 482,
        (PrevTag::NoBoundary, Category::Han, Category::Han, Category::Han) => 281,
        (PrevTag::NoBoundary, Category::Han, Category::Hiragana, Category::Han) => 249,
        (PrevTag::NoBoundary, Category::Hiragana, Category::Han, Category::Hiragana) => 200,
        (PrevTag::NoBoundary, Category::Hiragana, Category::Hiragana, Category::Han) => -68,
        _ => 0,
    }
}


#[verifier::opaque]
pub open spec fn spec_tq2(p: PrevTag, a: Category, b: Category, c: Category) -> int {
    match (p, a, b, c) {
        (PrevTag::Boundary, Category::Hiragana, Category::Han, Category::Han) => -1401,
        (PrevTag::Boundary, Category::Hiragana, Category::Hiragana, Category::Hiragana) => -1033,
        (PrevTag::Boundary, Category::Kana, Category::Latin, Category::Kana) => -543,
        (PrevTag::Boundary, Category::Other, Category::Other, Category::Other) => -5591,
        _ => 0,
    }
}

pub fn tq2(p: PrevTag, a: Category, b: Category, c: Category) -> (r: i32)
    ensures
        r as int == spec_tq2(p, a, b, c),
{
    proof {
        reveal(spec_tq2);
    }
    match (p, a, b, c) {
        (PrevTag::Boundary, Category::Hiragana, Category::Han, Category::Han) => -1401,
        (PrevTag::Boundary, Category::Hiragana, Category::Hiragana, Category::Hiragana) => -1033,
        (PrevTag::Boundary, Category::Kana, Category::Latin, Category::Kana) => -543,
        (PrevTag::Boundary, Category::Other, Category::Other, Category::Other) => -5591,
        _ => 0,
    }
}


#[verifier::opaque]
pub open spec fn spec_tq3(p: PrevTag, a: Category, b: Category, c: Category) -> int {
    match (p, a, b, c) {
        (PrevTag::Boundary, Category::Han, Category::Han, Category::Han) => 478,
        (PrevTag::Boundary, Category::Han, Category::Han, Category::KanjiNumeral) => -1073,
        (PrevTag::Boundary, Category::Han, Category::Hiragana, Category::Han) => 222,
        (PrevTag::Boundary, Category::Han, Category::Hiragana, Category::Hiragana) => -504,
        (PrevTag::Boundary, Category::Hiragana, Category::Hiragana, Category::Han) => -116,
        (PrevTag::Boundary, Category::Hiragana, Category::Hiragana, Category::Hiragana) => -105,
        (PrevTag::Boundary, Category::KanjiNumeral, Category::Han, Category::Hiragana) => -863,
        (PrevTag::Boundary, Category::KanjiNumeral, Category::Han, Category::KanjiNumeral) => -464,
        (PrevTag::Boundary, Category::Other, Category::KanjiNumeral, Category::Han) => 620,
        (PrevTag::NoBoundary, Category::Han, Category::Han, Category::Han) => 346,
        (PrevTag::NoBoundary, Category::Han, Category::Han, Category::Hiragana) => 1729,
        (PrevTag::NoBoundary, Category::Han, Category::Hiragana, Category::Hiragana) => 997,
        (PrevTag::NoBoundary, Category::Han, Category::KanjiNumeral, Category::Han) => 481,
        (PrevTag::NoBoundary, Category::Hiragana, Category::Han, Category::Han) => 623,
        (PrevTag::NoBoundary, Category::Hiragana, Category::Hiragana, Category::Han) => 1344,
        (PrevTag::NoBoundary, Category::Kana, Category::Latin, Category::Kana) => 2792,
        (PrevTag::NoBoundary, Category::Kana, Category::Han, Category::Han) => 587,
        (PrevTag::NoBoundary, Category::Kana, Category::Kana, Category::Latin) => 679,
        (PrevTag::NoBoundary, Category::Other, Category::Han, Category::Han) => 110,
        (PrevTag::NoBoundary, Category::Other, Category::Hiragana, Category::Hiragana) => -685,
        _ => 0,
    }
}

pub fn tq3(p: PrevTag, a: Category, b: Category, c: Category) -> (r: i32)
    ensures
        r as int == spec_tq3(p, a, b, c),
{
    proof {
        reveal(spec_tq3);
    }
    match (p, a, b, c) {
        (PrevTag::Boundary, Category::Han, Category::Han, Category::Han) => 478,
        (PrevTag::Boundary, Category::Han, Category::Han, Category::KanjiNumeral) => -1073,
        (PrevTag::Boundary, Category::Han, Category::Hiragana, Category::Han) => 222,
        (PrevTag::Boundary, Category::Han, Category::Hiragana, Category::Hiragana) => -504,
        (PrevTag::Boundary, Category::Hiragana, Category::Hiragana, Category::Han) => -116,
        (PrevTag::Boundary, Category::Hiragana, Category::Hiragana, Category::Hiragana) => -105,
        (PrevTag::Boundary, Category::KanjiNumeral, Category::Han, Category::Hiragana) => -863,
        (PrevTag::Boundary, Category::KanjiNumeral, Category::Han, Category::KanjiNumeral) => -464,
        (PrevTag::Boundary, Category::Other, Category::KanjiNumeral, Category::Han) => 620,
        (PrevTag::NoBoundary, Category::Han, Category::Han, Category::Han) => 346,
        (PrevTag::NoBoundary, Category::Han, Category::Han, Category::Hiragana) => 1729,
        (PrevTag::NoBoundary, Category::Han, Category::Hiragana, Category::Hiragana) => 997,
        (PrevTag::NoBoundary, Category::Han, Category::KanjiNumeral, Category::Han) => 481,
        (PrevTag::NoBoundary, Category::Hiragana, Category::Han, Category::Han) => 623,
        (PrevTag::NoBoundary, Category::Hiragana, Category::Hiragana, Category::Han) => 1344,
        (PrevTag::NoBoundary, Category::Kana, Category::Latin, Category::Kana) => 2792,
        (PrevTag::NoBoundary, Category::Kana, Category::Han, Category::Han) => 587,
        (PrevTag::NoBoundary, Category::Kana, Category::Kana, Category::Latin) => 679,
        (PrevTag::NoBoundary, Category::Other, Category::Han, Category::Han) => 110,
        (PrevTag::NoBoundary, Category::Other, Category::Hiragana, Category::Hiragana) => -685,
        _ => 0,
    }
}


#[verifier::opaque]
pub open spec fn spec_tq4(p: PrevTag, a: Category, b: Category, c: Category) -> int {
    match (p, a, b, c) {
        (PrevTag::Boundary, Category::Han, Category::Han, Category::Han) => -721,
        (PrevTag::Boundary, Category::Han, Category::Han, Category::KanjiNumeral) => -3604,
        (PrevTag::Boundary, Category::Han, Category::Hiragana, Category::Hiragana) => -966,
        (PrevTag::Boundary, Category::Hiragana, Category::Hiragana, Category::Han) => -607,
        (PrevTag::Boundary, Category::Hiragana, Category::Hiragana, Category::Hiragana) => -2181,
        (PrevTag::NoBoundary, Category::Latin, Category::Latin, Category::Latin) => -2763,
        (PrevTag::NoBoundary, Category::Latin, Category::Kana, Category::Kana) => 180,
        (PrevTag::NoBoundary, Category::Han, Category::Han, Category::Han) => -294,
        (PrevTag::NoBoundary, Category::Han, Category::Han, Category::Hiragana) => 2446,
        (PrevTag::NoBoundary, Category::Han, Category::Han, Category::Other) => 480,
        (PrevTag::NoBoundary, Category::Han, Category::Hiragana, Category::Han) => -1573,
        (PrevTag::NoBoundary, Category::Hiragana, Category::Han, Category::Han) => 1935,
        (PrevTag::NoBoundary, Category::Hiragana, Category::Han, Category::Hiragana) => -493,
        (PrevTag::NoBoundary, Category::Hiragana, Category::Hiragana, Category::Han) => 626,
        (PrevTag::NoBoundary, Category::Hiragana, Category::Hiragana, Category::Hiragana) => -4007,
        (PrevTag::NoBoundary, Category::Kana, Category::Latin, Category::Kana) => -8156,
        _ => 0,
    }
}

pub fn tq4(p: PrevTag, a: Category, b: Category, c: Category) -> (r: i32)
    ensures
        r as int == spec_tq4(p, a, b, c),
{
    proof {
        reveal(spec_tq4);
    }
    match (p, a, b, c) {
        (PrevTag::Boundary, Category::Han, Category::Han, Category::Han) => -721,
        (PrevTag::Boundary, Category::Han, Category::Han, Category::KanjiNumeral) => -3604,
        (PrevTag::Boundary, Category::Han, Category::Hiragana, Category::Hiragana) => -966,
        (PrevTag::Boundary, Category::Hiragana, Category::Hiragana, Category::Han) => -607,
        (PrevTag::Boundary, Category::Hiragana, Category::Hiragana, Category::Hiragana) => -2181,
        (PrevTag::NoBoundary, Category::Latin, Category::Latin, Category::Latin) => -2763,
        (PrevTag::NoBoundary, Category::Latin, Category::Kana, Category::Kana) => 180,
        (PrevTag::NoBoundary, Category::Han, Category::Han, Category::Han) => -294,
        (PrevTag::NoBoundary, Category::Han, Category::Han, Category::Hiragana) => 2446,
        (PrevTag::NoBoundary, Category::Han, Category::Han, Category::Other) => 480,
        (PrevTag::NoBoundary, Category::Han, Category::Hiragana, Category::Han) => -1573,
        (PrevTag::NoBoundary, Category::Hiragana, Category::Han, Category::Han) => 1935,
        (PrevTag::NoBoundary, Category::Hiragana, Category::Han, Category::Hiragana) => -493,
        (PrevTag::NoBoundary, Category::Hiragana, Category::Hiragana, Category::Han) => 626,
        (PrevTag::NoBoundary, Category::Hiragana, Category::Hiragana, Category::Hiragana) => -4007,
        (PrevTag::NoBoundary, Category::Kana, Category::Latin, Category::Kana) => -8156,
        _ => 0,
    }
}


} // verus!
