use vstd::prelude::*;

verus! {

/// Fixed-point scale used for tangent comparisons: all tangent values are
/// held as integers in units of `1 / TAN_SCALE`, with `TAN_SCALE = 2^56`.
pub const TAN_SCALE: i128 = 72057594037927936;

/// Tangent of `d` degrees, for `0 <= d < 90`, scaled by `TAN_SCALE` and
/// rounded to the nearest integer.  The two rational entries are exact:
/// `tan 0 = 0` and `tan 45 = 1` (held as `TAN_SCALE` itself).  Every other
/// entry is irrational, so a candidate bearing formed from integer
/// coordinates can never fall exactly on it, and the rounding never moves a
/// representable bearing across a sector edge unless the coordinates are
/// astronomically large.  This table is the library's definition of the
/// sector geometry at non-cardinal half-angles.
pub open spec fn spec_tan_scaled(d: int) -> int {
    if d == 0 { 0 }
    else if d == 1 { 1257769982503177 }
    else if d == 2 { 2516306631528417 }
    else if d == 3 { 3776378484006713 }
    else if d == 4 { 5038757827392004 }
    else if d == 5 { 6304222599271905 }
    else if d == 6 { 7573558316440983 }
    else if d == 7 { 8847560043666737 }
    else if d == 8 { 10127034412736457 }
    else if d == 9 { 11412801702829859 }
    else if d == 10 { 12705697993824120 }
    else if d == 11 { 14006577404812653 }
    else if d == 12 { 15316314430916248 }
    else if d == 13 { 16635806392396584 }
    else if d == 14 { 17965976011161256 }
    else if d == 15 { 19307774130992473 }
    else if d == 16 { 20662182599257225 }
    else if d == 17 { 22030217329487209 }
    else if d == 18 { 23412931566077627 }
    else if d == 19 { 24811419374475338 }
    else if d == 20 { 26226819382643537 }
    else if d == 21 { 27660318802342938 }
    else if d == 22 { 29113157761905921 }
    else if d == 23 { 30586633985755771 }
    else if d == 24 { 32082107860002869 }
    else if d == 25 { 33601007928109765 }
    else if d == 26 { 35144836865946575 }
    else if d == 27 { 36715177991662305 }
    else if d == 28 { 38313702372800222 }
    else if d == 29 { 39942176601132531 }
    else if d == 30 { 41602471314954466 }
    else if d == 31 { 43296570559266026 }
    else if d == 32 { 45026582086625451 }
    else if d == 33 { 46794748715774069 }
    else if d == 34 { 48603460881756456 }
    else if d == 35 { 50455270530612181 }
    else if d == 36 { 52352906534300183 }
    else if d == 37 { 54299291827943549 }
    else if d == 38 { 56297562502489232 }
    else if d == 39 { 58351089122361785 }
    else if d == 40 { 60463500580747502 }
    else if d == 41 { 62638710856116359 }
    else if d == 42 { 64880949094122233 }
    else if d == 43 { 67194793511151028 }
    else if d == 44 { 69585209702032152 }
    else if d == 45 { 72057594037927936 }
    else if d == 46 { 74617822965088986 }
    else if d == 47 { 77272309165935036 }
    else if d == 48 { 80028065727004200 }
    else if d == 49 { 82892779681589274 }
    else if d == 50 { 85874896568395742 }
    else if d == 51 { 88983717984194281 }
    else if d == 52 { 92229514524811745 }
    else if d == 53 { 95623657026458000 }
    else if d == 54 { 99178769666455437 }
    else if d == 55 { 102908909295899256 }
    else if d == 56 { 106829776405568299 }
    else if d == 57 { 110958964435779806 }
    else if d == 58 { 115316255818518601 }
    else if d == 59 { 119923975304866471 }
    else if d == 60 { 124807413944863399 }
    else if d == 61 { 129995340774383434 }
    else if d == 62 { 135520624136313135 }
    else if d == 63 { 141420991060262671 }
    else if d == 64 { 147739961870925038 }
    else if d == 65 { 154528009089604769 }
    else if d == 66 { 161844006048247334 }
    else if d == 67 { 169757053389820075 }
    else if d == 68 { 178348803692083893 }
    else if d == 69 { 187716450256351337 }
    else if d == 70 { 197976612519435021 }
    else if d == 71 { 209270448424098827 }
    else if d == 72 { 221770470898988501 }
    else if d == 73 { 235689770140623807 }
    else if d == 74 { 251294694236294428 }
    else if d == 75 { 268922602020719271 }
    else if d == 76 { 289007224283787526 }
    else if d == 77 { 312115730134246661 }
    else if d == 78 { 339004326527410917 }
    else if d == 79 { 370704184788980439 }
    else if d == 80 { 408658923032694162 }
    else if d == 81 { 454953743500806861 }
    else if d == 82 { 512716422885325313 }
    else if d == 83 { 586862008611241789 }
    else if d == 84 { 685582211371262817 }
    else if d == 85 { 823622068664660230 }
    else if d == 86 { 1030471603598042631 }
    else if d == 87 { 1374940801226532346 }
    else if d == 88 { 2063459513827613679 }
    else if d == 89 { 4128176797637730534 }
    else { 0 }
}

/// Table lookup for `spec_tan_scaled`.
pub fn tan_scaled(d: u32) -> (t: i64)
    requires
        d < 90,
    ensures
        t == spec_tan_scaled(d as int),
{
    match d {
        0 => 0,
        1 => 1257769982503177,
        2 => 2516306631528417,
        3 => 3776378484006713,
        4 => 5038757827392004,
        5 => 6304222599271905,
        6 => 7573558316440983,
        7 => 8847560043666737,
        8 => 10127034412736457,
        9 => 11412801702829859,
        10 => 12705697993824120,
        11 => 14006577404812653,
        12 => 15316314430916248,
        13 => 16635806392396584,
        14 => 17965976011161256,
        15 => 19307774130992473,
        16 => 20662182599257225,
        17 => 22030217329487209,
        18 => 23412931566077627,
        19 => 24811419374475338,
        20 => 26226819382643537,
        21 => 27660318802342938,
        22 => 29113157761905921,
        23 => 30586633985755771,
        24 => 32082107860002869,
        25 => 33601007928109765,
        26 => 35144836865946575,
        27 => 36715177991662305,
        28 => 38313702372800222,
        29 => 39942176601132531,
        30 => 41602471314954466,
        31 => 43296570559266026,
        32 => 45026582086625451,
        33 => 46794748715774069,
        34 => 48603460881756456,
        35 => 50455270530612181,
        36 => 52352906534300183,
        37 => 54299291827943549,
        38 => 56297562502489232,
        39 => 58351089122361785,
        40 => 60463500580747502,
        41 => 62638710856116359,
        42 => 64880949094122233,
        43 => 67194793511151028,
        44 => 69585209702032152,
        45 => 72057594037927936,
        46 => 74617822965088986,
        47 => 77272309165935036,
        48 => 80028065727004200,
        49 => 82892779681589274,
        50 => 85874896568395742,
        51 => 88983717984194281,
        52 => 92229514524811745,
        53 => 95623657026458000,
        54 => 99178769666455437,
        55 => 102908909295899256,
        56 => 106829776405568299,
        57 => 110958964435779806,
        58 => 115316255818518601,
        59 => 119923975304866471,
        60 => 124807413944863399,
        61 => 129995340774383434,
        62 => 135520624136313135,
        63 => 141420991060262671,
        64 => 147739961870925038,
        65 => 154528009089604769,
        66 => 161844006048247334,
        67 => 169757053389820075,
        68 => 178348803692083893,
        69 => 187716450256351337,
        70 => 197976612519435021,
        71 => 209270448424098827,
        72 => 221770470898988501,
        73 => 235689770140623807,
        74 => 251294694236294428,
        75 => 268922602020719271,
        76 => 289007224283787526,
        77 => 312115730134246661,
        78 => 339004326527410917,
        79 => 370704184788980439,
        80 => 408658923032694162,
        81 => 454953743500806861,
        82 => 512716422885325313,
        83 => 586862008611241789,
        84 => 685582211371262817,
        85 => 823622068664660230,
        86 => 1030471603598042631,
        87 => 1374940801226532346,
        88 => 2063459513827613679,
        89 => 4128176797637730534,
        _ => 0,
    }
}

/// Every entry of the tangent table is non-negative, as the tangent of an
/// angle in `[0, 90)` degrees is.
pub proof fn lemma_tan_scaled_nonneg(d: int)
    requires
        0 <= d < 90,
    ensures
        spec_tan_scaled(d) >= 0,
{
}

} // verus!
