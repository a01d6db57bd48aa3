use vstd::prelude::*;

verus! {

/// Full volume. A volume counts parts of it, of which there are two to the
/// power of 28, so that the volumes of a player are the numbers of a gain in
/// single precision.
pub const FULL_VOLUME: u32 = 268_435_456;

/// The volume of a new player: the number in single precision next to four
/// fifths of full volume.
pub const INITIAL_VOLUME: u32 = 214_748_368;

/// What a key changes the volume by: the number in single precision next to a
/// twentieth of full volume.
pub const VOLUME_STEP: i32 = 13_421_773;

/// How far numbers of 24 binary digits are apart at `n`.
pub open spec fn spacing(n: nat) -> nat
    decreases n,
{
    if n < 16_777_216 {
        1
    } else {
        2 * spacing(n / 2)
    }
}

/// The number of 24 binary digits, and zeros after them, next to `n`. Of two
/// that are as near, it is the one with the even last digit.
pub open spec fn rounded(n: nat) -> nat {
    let unit = spacing(n);
    let over = n % unit;
    if 2 * over < unit || (2 * over == unit && n / unit % 2 == 0) {
        (n - over) as nat
    } else {
        (n - over + unit) as nat
    }
}

/// The volume after a change by `delta` parts, within zero and full volume.
pub open spec fn changed_volume(volume: nat, delta: int) -> nat {
    if volume + delta <= 0 {
        0
    } else if rounded((volume + delta) as nat) > FULL_VOLUME {
        FULL_VOLUME as nat
    } else {
        rounded((volume + delta) as nat)
    }
}

/// The whole percentage that is shown for a volume. The product is a number of
/// 24 binary digits too, and halves are rounded up.
pub open spec fn volume_percent(volume: nat) -> nat {
    (rounded(volume * 100) + FULL_VOLUME as nat / 2) / (FULL_VOLUME as nat)
}

fn compute_spacing(n: u64) -> (unit: u64)
    ensures
        unit as nat == spacing(n as nat),
        1 <= unit,
        unit == 1 || unit <= n,
    decreases n,
{
    if n < 16_777_216 {
        1
    } else {
        2 * compute_spacing(n / 2)
    }
}

fn round(n: u64) -> (r: u64)
    requires
        n <= 1_000_000_000_000,
    ensures
        r as nat == rounded(n as nat),
        r <= 2 * n + 1,
{
    let unit: u64 = compute_spacing(n);
    let over: u64 = n % unit;
    assert(over <= n) by (nonlinear_arith)
        requires
            over == n % unit,
            1 <= unit,
    ;
    if 2 * over < unit || (2 * over == unit && n / unit % 2 == 0) {
        n - over
    } else {
        n - over + unit
    }
}

/// The volume after a change by `delta` parts.
pub fn change(volume: u32, delta: i32) -> (changed: u32)
    ensures
        changed as nat == changed_volume(volume as nat, delta as int),
        changed <= FULL_VOLUME,
{
    let sum: i64 = volume as i64 + delta as i64;
    if sum <= 0 {
        return 0;
    }
    let r: u64 = round(sum as u64);
    if r > FULL_VOLUME as u64 {
        FULL_VOLUME
    } else {
        r as u32
    }
}

/// The percentage that is shown for a volume.
pub fn percent(volume: u32) -> (percent: u32)
    ensures
        percent as nat == volume_percent(volume as nat),
{
    ((round(volume as u64 * 100) + FULL_VOLUME as u64 / 2) / FULL_VOLUME as u64) as u32
}

/// The volumes that steps lead to from the one of a new player, with the
/// percentages that are shown for them.
pub open spec fn is_level(volume: nat, percent: nat) -> bool {
    ||| percent == 0 && (volume == 0 || volume == 2)
    ||| percent == 5 && (volume == 13_421_731
        || volume == 13_421_747 || volume == 13_421_773
        || volume == 13_421_775)
    ||| percent == 10 && (volume == 26_843_504
        || volume == 26_843_520 || volume == 26_843_546
        || volume == 26_843_548)
    ||| percent == 15 && (volume == 40_265_276 || volume == 40_265_292 || volume == 40_265_320)
    ||| percent == 20 && (volume == 53_687_048 || volume == 53_687_064 || volume == 53_687_092)
    ||| percent == 25 && (volume == 67_108_820 || volume == 67_108_836 || volume == 67_108_864)
    ||| percent == 30 && (volume == 80_530_592 || volume == 80_530_608 || volume == 80_530_640)
    ||| percent == 35 && (volume == 93_952_368 || volume == 93_952_384 || volume == 93_952_416)
    ||| percent == 40 && (volume == 107_374_144 || volume == 107_374_160 || volume == 107_374_192)
    ||| percent == 45 && (volume == 120_795_920 || volume == 120_795_936 || volume == 120_795_968)
    ||| percent == 50 && (volume == 134_217_696 || volume == 134_217_712 || volume == 134_217_744)
    ||| percent == 55 && (volume == 147_639_472 || volume == 147_639_488 || volume == 147_639_520)
    ||| percent == 60 && (volume == 161_061_248 || volume == 161_061_264 || volume == 161_061_296)
    ||| percent == 65 && (volume == 174_483_024 || volume == 174_483_040 || volume == 174_483_072)
    ||| percent == 70 && (volume == 187_904_800 || volume == 187_904_816 || volume == 187_904_848)
    ||| percent == 75 && (volume == 201_326_576 || volume == 201_326_592 || volume == 201_326_624)
    ||| percent == 80 && (volume == 214_748_352 || volume == 214_748_368 || volume == 214_748_400)
    ||| percent == 85 && (volume == 228_170_128 || volume == 228_170_144 || volume == 228_170_176)
    ||| percent == 90 && (volume == 241_591_904 || volume == 241_591_920 || volume == 241_591_952)
    ||| percent == 95 && (volume == 255_013_680 || volume == 255_013_696 || volume == 255_013_728)
    ||| percent == 100 && volume == 268_435_456
}

/// Steps lead to the volume from the one of a new player.
pub open spec fn is_reachable(volume: nat) -> bool {
    is_level(volume, volume_percent(volume))
}

/// How far numbers are apart below two to the power of 35.
pub proof fn lemma_spacing(n: nat)
    ensures
        n < 16_777_216 ==> spacing(n) == 1,
        16_777_216 <= n < 33_554_432 ==> spacing(n) == 2,
        33_554_432 <= n < 67_108_864 ==> spacing(n) == 4,
        67_108_864 <= n < 134_217_728 ==> spacing(n) == 8,
        134_217_728 <= n < 268_435_456 ==> spacing(n) == 16,
        268_435_456 <= n < 536_870_912 ==> spacing(n) == 32,
        536_870_912 <= n < 1_073_741_824 ==> spacing(n) == 64,
        1_073_741_824 <= n < 2_147_483_648 ==> spacing(n) == 128,
        2_147_483_648 <= n < 4_294_967_296 ==> spacing(n) == 256,
        4_294_967_296 <= n < 8_589_934_592 ==> spacing(n) == 512,
        8_589_934_592 <= n < 17_179_869_184 ==> spacing(n) == 1024,
        17_179_869_184 <= n < 34_359_738_368 ==> spacing(n) == 2048,
{
    reveal_with_fuel(spacing, 12);
}

/// A level is a number of 24 binary digits, and the percentage that goes with
/// it is the one that is shown.
proof fn lemma_level(volume: nat, percent: nat)
    requires
        is_level(volume, percent),
    ensures
        rounded(volume) == volume,
        volume_percent(volume) == percent,
{
    lemma_spacing(volume);
    lemma_spacing(volume * 100);
}

proof fn lemma_step_up(volume: nat, percent: nat)
    requires
        is_level(volume, percent),
    ensures
        is_level(
            changed_volume(volume, VOLUME_STEP as int),
            if percent < 100 {
                percent + 5
            } else {
                100
            },
        ),
{
    lemma_spacing((volume + VOLUME_STEP) as nat);
}

proof fn lemma_step_down(volume: nat, percent: nat)
    requires
        is_level(volume, percent),
    ensures
        is_level(
            changed_volume(volume, -VOLUME_STEP),
            if percent > 0 {
                (percent - 5) as nat
            } else {
                0
            },
        ),
{
    if volume >= VOLUME_STEP {
        lemma_spacing((volume - VOLUME_STEP) as nat);
    }
}

/// A step from a level leads to the next level, or stays where there is none.
/// A level is a number of 24 binary digits, within the range of volumes.
pub proof fn law_steps_lead_to_levels(volume: nat, percent: nat)
    requires
        is_level(volume, percent),
    ensures
        volume <= FULL_VOLUME,
        rounded(volume) == volume,
        volume_percent(volume) == percent,
        percent <= 100 && percent % 5 == 0,
        is_level(
            changed_volume(volume, VOLUME_STEP as int),
            if percent < 100 {
                percent + 5
            } else {
                100
            },
        ),
        is_level(
            changed_volume(volume, -VOLUME_STEP),
            if percent > 0 {
                (percent - 5) as nat
            } else {
                0
            },
        ),
{
    lemma_level(volume, percent);
    lemma_step_up(volume, percent);
    lemma_step_down(volume, percent);
}

/// No volume is shown as more than 100 percent.
pub proof fn law_percentages_end_at_a_hundred(volume: nat)
    requires
        volume <= FULL_VOLUME,
    ensures
        volume_percent(volume) <= 100,
{
    lemma_spacing(volume * 100);
    assert(rounded(volume * 100) <= 26_843_545_600);
}

} // verus!
