use vstd::prelude::*;

use crate::output::Output;
use crate::outputs::Outputs;
use crate::text::{dec_digits, dec_string, push_char, push_decimal, push_signed_decimal, push_str};

verus! {

/// The numbers of an output's xrandr options that are written with two decimals: the
/// refresh rate of its mode, and its scale (`sx` or `sxxsy`).
pub struct XrandrNumbers {
    pub rate: String,
    pub scale: String,
}

/// The line continuation after every output but the last.
pub open spec fn line_end(i: int, n: int) -> Seq<char> {
    if i < n - 1 {
        " \\\n"@
    } else {
        Seq::<char>::empty()
    }
}

/// Mode, rate and position options of an output with a mode.
pub open spec fn spec_geometry_options(o: Output, m: crate::mode::Mode, rate: Seq<char>) -> Seq<char> {
    " --mode "@ + dec_digits(m.spec_width() as nat) + "x"@ + dec_digits(m.spec_height() as nat)
        + " --rate "@ + rate + " --pos "@ + dec_string(o.spec_x() as int) + "x"@ + dec_string(
        o.spec_y() as int,
    )
}

/// Rotation, reflection, scale and primary options of an output with a mode.
pub open spec fn spec_orientation_options(o: Output, scale: Seq<char>) -> Seq<char> {
    " --rotate "@ + o.spec_rotation().spec_xrandr() + " --reflect "@
        + o.spec_reflection().spec_xrandr() + " --scale "@ + scale + if o.spec_primary() {
        " --primary"@ + " --dpi "@ + o.spec_name()
    } else {
        Seq::<char>::empty()
    }
}

/// The options of one output in an xrandr command.
pub open spec fn spec_output_options(o: Output, num: (Seq<char>, Seq<char>), i: int, n: int) -> Seq<char> {
    let pad = if i == 0 {
        1nat
    } else {
        7nat
    };
    Seq::new(pad, |k: int| ' ') + "--output "@ + o.spec_name() + match o.spec_mode() {
        Some(m) => spec_geometry_options(o, m, num.0) + spec_orientation_options(o, num.1)
            + line_end(i, n),
        None => " --off"@ + line_end(i, n),
    }
}

/// The options of the first `k` outputs.
pub open spec fn spec_options_prefix(
    outputs: Seq<Output>,
    nums: Seq<(Seq<char>, Seq<char>)>,
    k: int,
) -> Seq<char>
    decreases k,
{
    if k <= 0 {
        Seq::<char>::empty()
    } else {
        spec_options_prefix(outputs, nums, k - 1) + spec_output_options(
            outputs[k - 1],
            nums[k - 1],
            k - 1,
            outputs.len() as int,
        )
    }
}

/// The xrandr command that sets up the given outputs.
pub open spec fn spec_xrandr_command(outputs: Seq<Output>, nums: Seq<(Seq<char>, Seq<char>)>) -> Seq<
    char,
> {
    "xrandr"@ + spec_options_prefix(outputs, nums, outputs.len() as int)
}

/// The rate and scale texts of each output.
pub open spec fn numbers_view(nums: Seq<XrandrNumbers>) -> Seq<(Seq<char>, Seq<char>)> {
    nums.map_values(|x: XrandrNumbers| (x.rate@, x.scale@))
}

fn push_geometry_options(cmd: &mut String, output: &Output, mode: crate::mode::Mode, rate: &String)
    ensures
        final(cmd)@ == old(cmd)@ + spec_geometry_options(*output, mode, rate@),
{
    let ghost s0 = cmd@;
    push_str(cmd, " --mode ");
    push_decimal(cmd, mode.width() as u64);
    push_str(cmd, "x");
    push_decimal(cmd, mode.height() as u64);
    let ghost s1 = cmd@;
    assert(s1 =~= s0 + (" --mode "@ + dec_digits(mode.spec_width() as nat) + "x"@ + dec_digits(
        mode.spec_height() as nat,
    )));
    push_str(cmd, " --rate ");
    push_str(cmd, rate.as_str());
    let ghost s2 = cmd@;
    assert(s2 =~= s1 + (" --rate "@ + rate@));
    push_str(cmd, " --pos ");
    push_signed_decimal(cmd, output.x() as i64);
    push_str(cmd, "x");
    push_signed_decimal(cmd, output.y() as i64);
    let ghost s3 = cmd@;
    assert(s3 =~= s2 + (" --pos "@ + dec_string(output.spec_x() as int) + "x"@ + dec_string(
        output.spec_y() as int,
    )));
    assert(cmd@ =~= s0 + spec_geometry_options(*output, mode, rate@));
}

fn push_orientation_options(cmd: &mut String, output: &Output, scale: &String)
    ensures
        final(cmd)@ == old(cmd)@ + spec_orientation_options(*output, scale@),
{
    let ghost s0 = cmd@;
    push_str(cmd, " --rotate ");
    let rot = output.rotation().xrandr();
    push_str(cmd, rot.as_str());
    push_str(cmd, " --reflect ");
    let refl = output.reflection().xrandr();
    push_str(cmd, refl.as_str());
    let ghost s1 = cmd@;
    assert(s1 =~= s0 + (" --rotate "@ + output.spec_rotation().spec_xrandr() + " --reflect "@
        + output.spec_reflection().spec_xrandr()));
    push_str(cmd, " --scale ");
    push_str(cmd, scale.as_str());
    let ghost s2 = cmd@;
    assert(s2 =~= s1 + (" --scale "@ + scale@));
    if output.primary() {
        push_str(cmd, " --primary");
        push_str(cmd, " --dpi ");
        push_str(cmd, output.name().as_str());
        assert(cmd@ =~= s2 + (" --primary"@ + " --dpi "@ + output.spec_name()));
    } else {
        assert(cmd@ =~= s2 + Seq::<char>::empty());
    }
    assert(cmd@ =~= s0 + spec_orientation_options(*output, scale@));
}

fn push_output_options(cmd: &mut String, output: &Output, num: &XrandrNumbers, i: usize, n: usize)
    requires
        i < n,
    ensures
        final(cmd)@ == old(cmd)@ + spec_output_options(*output, (num.rate@, num.scale@), i as int, n as int),
{
    let ghost start = cmd@;
    let pad: usize = if i == 0 {
        1
    } else {
        7
    };
    crate::text::push_spaces(cmd, pad);
    push_str(cmd, "--output ");
    push_str(cmd, output.name().as_str());
    let ghost head = cmd@;
    assert(head =~= start + (Seq::new(pad as nat, |k: int| ' ') + "--output "@ + output.spec_name()));
    match output.mode() {
        Some(mode) => {
            push_geometry_options(cmd, output, mode, &num.rate);
            push_orientation_options(cmd, output, &num.scale);
            let ghost tail = cmd@;
            if i < n - 1 {
                push_str(cmd, " \\\n");
            }
            assert(cmd@ =~= tail + line_end(i as int, n as int));
            assert(cmd@ =~= head + (spec_geometry_options(*output, mode, num.rate@)
                + spec_orientation_options(*output, num.scale@) + line_end(i as int, n as int)));
        },
        None => {
            push_str(cmd, " --off");
            let ghost tail = cmd@;
            if i < n - 1 {
                push_str(cmd, " \\\n");
            }
            assert(cmd@ =~= tail + line_end(i as int, n as int));
            assert(cmd@ =~= head + (" --off"@ + line_end(i as int, n as int)));
        },
    }
}

/// The xrandr command that sets up the given outputs: one `--output` per output with
/// its mode, rate, position, rotation, reflection, scale and primary flag, or `--off`
/// for an output without a mode; `nums` holds the rate and scale texts of each output.
pub fn gen_xrandr_command(outputs: &Outputs, nums: &Vec<XrandrNumbers>) -> (r: String)
    requires
        nums@.len() == outputs@.len(),
    ensures
        r@ == spec_xrandr_command(outputs@, numbers_view(nums@)),
{
    let mut cmd = String::new();
    push_str(&mut cmd, "xrandr");
    let n = outputs.len();
    let mut i: usize = 0;
    while i < n
        invariant
            0 <= i <= n,
            n == outputs@.len(),
            nums@.len() == n,
            cmd@ == "xrandr"@ + spec_options_prefix(outputs@, numbers_view(nums@), i as int),
        decreases n - i,
    {
        let output = outputs.index(i);
        let num = &nums[i];
        push_output_options(&mut cmd, output, num, i, n);
        assert(numbers_view(nums@)[i as int] == (num.rate@, num.scale@));
        assert(cmd@ =~= "xrandr"@ + spec_options_prefix(outputs@, numbers_view(nums@), i + 1));
        i += 1;
    }
    cmd
}

} // verus!
