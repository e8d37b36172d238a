//! The canonical capability name tables: for each kind the mapping from
//! legacy ordinal to short and long name, and the resolution of short
//! names to long ones.

use vstd::prelude::*;

use crate::database::str_eq;

verus! {

/// The boolean table: short and long name for each ordinal.
pub open spec fn boolean_entry(i: int) -> Option<(&'static str, &'static str)> {
    if i == 0 {
        Some(("bw", "auto_left_margin"))
    } else if i == 1 {
        Some(("am", "auto_right_margin"))
    } else if i == 2 {
        Some(("xsb", "no_esc_ctlc"))
    } else if i == 3 {
        Some(("xhp", "ceol_standout_glitch"))
    } else if i == 4 {
        Some(("xenl", "eat_newline_glitch"))
    } else if i == 5 {
        Some(("eo", "erase_overstrike"))
    } else if i == 6 {
        Some(("gn", "generic_type"))
    } else if i == 7 {
        Some(("hc", "hard_copy"))
    } else if i == 8 {
        Some(("km", "has_meta_key"))
    } else if i == 9 {
        Some(("hs", "has_status_line"))
    } else if i == 10 {
        Some(("in", "insert_null_glitch"))
    } else if i == 11 {
        Some(("da", "memory_above"))
    } else if i == 12 {
        Some(("db", "memory_below"))
    } else if i == 13 {
        Some(("mir", "move_insert_mode"))
    } else if i == 14 {
        Some(("msgr", "move_standout_mode"))
    } else if i == 15 {
        Some(("os", "over_strike"))
    } else if i == 16 {
        Some(("eslok", "status_line_esc_ok"))
    } else if i == 17 {
        Some(("xt", "dest_tabs_magic_smso"))
    } else if i == 18 {
        Some(("hz", "tilde_glitch"))
    } else if i == 19 {
        Some(("ul", "transparent_underline"))
    } else if i == 20 {
        Some(("xon", "xon_xoff"))
    } else if i == 21 {
        Some(("nxon", "needs_xon_xoff"))
    } else if i == 22 {
        Some(("mc5i", "prtr_silent"))
    } else if i == 23 {
        Some(("chts", "hard_cursor"))
    } else if i == 24 {
        Some(("nrrmc", "non_rev_rmcup"))
    } else if i == 25 {
        Some(("npc", "no_pad_char"))
    } else if i == 26 {
        Some(("ndscr", "non_dest_scroll_region"))
    } else if i == 27 {
        Some(("ccc", "can_change"))
    } else if i == 28 {
        Some(("bce", "back_color_erase"))
    } else if i == 29 {
        Some(("hls", "hue_lightness_saturation"))
    } else if i == 30 {
        Some(("xhpa", "col_addr_glitch"))
    } else if i == 31 {
        Some(("crxm", "cr_cancels_micro_mode"))
    } else if i == 32 {
        Some(("daisy", "has_print_wheel"))
    } else if i == 33 {
        Some(("xvpa", "row_addr_glitch"))
    } else if i == 34 {
        Some(("sam", "semi_auto_right_margin"))
    } else if i == 35 {
        Some(("cpix", "cpi_changes_res"))
    } else if i == 36 {
        Some(("lpix", "lpi_changes_res"))
    } else if i == 37 {
        Some(("OTbs", "backspaces_with_bs"))
    } else if i == 38 {
        Some(("OTns", "crt_no_scrolling"))
    } else if i == 39 {
        Some(("OTnc", "no_correctly_working_cr"))
    } else if i == 40 {
        Some(("OTMT", "gnu_has_meta_key"))
    } else if i == 41 {
        Some(("OTNL", "linefeed_is_newline"))
    } else if i == 42 {
        Some(("OTpt", "has_hardware_tabs"))
    } else if i == 43 {
        Some(("OTxr", "return_does_clr_eol"))
    } else {
        None
    }
}

fn boolean_entry_at(i: usize) -> (r: Option<(&'static str, &'static str)>)
    ensures
        r == boolean_entry(i as int),
{
    match i {
        0 => Some(("bw", "auto_left_margin")),
        1 => Some(("am", "auto_right_margin")),
        2 => Some(("xsb", "no_esc_ctlc")),
        3 => Some(("xhp", "ceol_standout_glitch")),
        4 => Some(("xenl", "eat_newline_glitch")),
        5 => Some(("eo", "erase_overstrike")),
        6 => Some(("gn", "generic_type")),
        7 => Some(("hc", "hard_copy")),
        8 => Some(("km", "has_meta_key")),
        9 => Some(("hs", "has_status_line")),
        10 => Some(("in", "insert_null_glitch")),
        11 => Some(("da", "memory_above")),
        12 => Some(("db", "memory_below")),
        13 => Some(("mir", "move_insert_mode")),
        14 => Some(("msgr", "move_standout_mode")),
        15 => Some(("os", "over_strike")),
        16 => Some(("eslok", "status_line_esc_ok")),
        17 => Some(("xt", "dest_tabs_magic_smso")),
        18 => Some(("hz", "tilde_glitch")),
        19 => Some(("ul", "transparent_underline")),
        20 => Some(("xon", "xon_xoff")),
        21 => Some(("nxon", "needs_xon_xoff")),
        22 => Some(("mc5i", "prtr_silent")),
        23 => Some(("chts", "hard_cursor")),
        24 => Some(("nrrmc", "non_rev_rmcup")),
        25 => Some(("npc", "no_pad_char")),
        26 => Some(("ndscr", "non_dest_scroll_region")),
        27 => Some(("ccc", "can_change")),
        28 => Some(("bce", "back_color_erase")),
        29 => Some(("hls", "hue_lightness_saturation")),
        30 => Some(("xhpa", "col_addr_glitch")),
        31 => Some(("crxm", "cr_cancels_micro_mode")),
        32 => Some(("daisy", "has_print_wheel")),
        33 => Some(("xvpa", "row_addr_glitch")),
        34 => Some(("sam", "semi_auto_right_margin")),
        35 => Some(("cpix", "cpi_changes_res")),
        36 => Some(("lpix", "lpi_changes_res")),
        37 => Some(("OTbs", "backspaces_with_bs")),
        38 => Some(("OTns", "crt_no_scrolling")),
        39 => Some(("OTnc", "no_correctly_working_cr")),
        40 => Some(("OTMT", "gnu_has_meta_key")),
        41 => Some(("OTNL", "linefeed_is_newline")),
        42 => Some(("OTpt", "has_hardware_tabs")),
        43 => Some(("OTxr", "return_does_clr_eol")),
        _ => None,
    }
}

/// The number table: short and long name for each ordinal.
pub open spec fn number_entry(i: int) -> Option<(&'static str, &'static str)> {
    if i == 0 {
        Some(("cols", "columns"))
    } else if i == 1 {
        Some(("it", "init_tabs"))
    } else if i == 2 {
        Some(("lines", "lines"))
    } else if i == 3 {
        Some(("lm", "lines_of_memory"))
    } else if i == 4 {
        Some(("xmc", "magic_cookie_glitch"))
    } else if i == 5 {
        Some(("pb", "padding_baud_rate"))
    } else if i == 6 {
        Some(("vt", "virtual_terminal"))
    } else if i == 7 {
        Some(("wsl", "width_status_line"))
    } else if i == 8 {
        Some(("nlab", "num_labels"))
    } else if i == 9 {
        Some(("lh", "label_height"))
    } else if i == 10 {
        Some(("lw", "label_width"))
    } else if i == 11 {
        Some(("ma", "max_attributes"))
    } else if i == 12 {
        Some(("wnum", "maximum_windows"))
    } else if i == 13 {
        Some(("colors", "max_colors"))
    } else if i == 14 {
        Some(("pairs", "max_pairs"))
    } else if i == 15 {
        Some(("ncv", "no_color_video"))
    } else if i == 16 {
        Some(("bufsz", "buffer_capacity"))
    } else if i == 17 {
        Some(("spinv", "dot_vert_spacing"))
    } else if i == 18 {
        Some(("spinh", "dot_horz_spacing"))
    } else if i == 19 {
        Some(("maddr", "max_micro_address"))
    } else if i == 20 {
        Some(("mjump", "max_micro_jump"))
    } else if i == 21 {
        Some(("mcs", "micro_col_size"))
    } else if i == 22 {
        Some(("mls", "micro_line_size"))
    } else if i == 23 {
        Some(("npins", "number_of_pins"))
    } else if i == 24 {
        Some(("orc", "output_res_char"))
    } else if i == 25 {
        Some(("orl", "output_res_line"))
    } else if i == 26 {
        Some(("orhi", "output_res_horz_inch"))
    } else if i == 27 {
        Some(("orvi", "output_res_vert_inch"))
    } else if i == 28 {
        Some(("cps", "print_rate"))
    } else if i == 29 {
        Some(("widcs", "wide_char_size"))
    } else if i == 30 {
        Some(("btns", "buttons"))
    } else if i == 31 {
        Some(("bitwin", "bit_image_entwining"))
    } else if i == 32 {
        Some(("bitype", "bit_image_type"))
    } else if i == 33 {
        Some(("OTug", "magic_cookie_glitch_ul"))
    } else if i == 34 {
        Some(("OTdC", "carriage_return_delay"))
    } else if i == 35 {
        Some(("OTdN", "new_line_delay"))
    } else if i == 36 {
        Some(("OTdB", "backspace_delay"))
    } else if i == 37 {
        Some(("OTdT", "horizontal_tab_delay"))
    } else if i == 38 {
        Some(("OTkn", "number_of_function_keys"))
    } else {
        None
    }
}

fn number_entry_at(i: usize) -> (r: Option<(&'static str, &'static str)>)
    ensures
        r == number_entry(i as int),
{
    match i {
        0 => Some(("cols", "columns")),
        1 => Some(("it", "init_tabs")),
        2 => Some(("lines", "lines")),
        3 => Some(("lm", "lines_of_memory")),
        4 => Some(("xmc", "magic_cookie_glitch")),
        5 => Some(("pb", "padding_baud_rate")),
        6 => Some(("vt", "virtual_terminal")),
        7 => Some(("wsl", "width_status_line")),
        8 => Some(("nlab", "num_labels")),
        9 => Some(("lh", "label_height")),
        10 => Some(("lw", "label_width")),
        11 => Some(("ma", "max_attributes")),
        12 => Some(("wnum", "maximum_windows")),
        13 => Some(("colors", "max_colors")),
        14 => Some(("pairs", "max_pairs")),
        15 => Some(("ncv", "no_color_video")),
        16 => Some(("bufsz", "buffer_capacity")),
        17 => Some(("spinv", "dot_vert_spacing")),
        18 => Some(("spinh", "dot_horz_spacing")),
        19 => Some(("maddr", "max_micro_address")),
        20 => Some(("mjump", "max_micro_jump")),
        21 => Some(("mcs", "micro_col_size")),
        22 => Some(("mls", "micro_line_size")),
        23 => Some(("npins", "number_of_pins")),
        24 => Some(("orc", "output_res_char")),
        25 => Some(("orl", "output_res_line")),
        26 => Some(("orhi", "output_res_horz_inch")),
        27 => Some(("orvi", "output_res_vert_inch")),
        28 => Some(("cps", "print_rate")),
        29 => Some(("widcs", "wide_char_size")),
        30 => Some(("btns", "buttons")),
        31 => Some(("bitwin", "bit_image_entwining")),
        32 => Some(("bitype", "bit_image_type")),
        33 => Some(("OTug", "magic_cookie_glitch_ul")),
        34 => Some(("OTdC", "carriage_return_delay")),
        35 => Some(("OTdN", "new_line_delay")),
        36 => Some(("OTdB", "backspace_delay")),
        37 => Some(("OTdT", "horizontal_tab_delay")),
        38 => Some(("OTkn", "number_of_function_keys")),
        _ => None,
    }
}

/// Part of the string table, ordinals 0 and up.
pub open spec fn string_entry_0(i: int) -> Option<(&'static str, &'static str)> {
    if i == 0 {
        Some(("cbt", "back_tab"))
    } else if i == 1 {
        Some(("bel", "bell"))
    } else if i == 2 {
        Some(("cr", "carriage_return"))
    } else if i == 3 {
        Some(("csr", "change_scroll_region"))
    } else if i == 4 {
        Some(("tbc", "clear_all_tabs"))
    } else if i == 5 {
        Some(("clear", "clear_screen"))
    } else if i == 6 {
        Some(("el", "clr_eol"))
    } else if i == 7 {
        Some(("ed", "clr_eos"))
    } else if i == 8 {
        Some(("hpa", "column_address"))
    } else if i == 9 {
        Some(("cmdch", "command_character"))
    } else if i == 10 {
        Some(("cup", "cursor_address"))
    } else if i == 11 {
        Some(("cud1", "cursor_down"))
    } else if i == 12 {
        Some(("home", "cursor_home"))
    } else if i == 13 {
        Some(("civis", "cursor_invisible"))
    } else if i == 14 {
        Some(("cub1", "cursor_left"))
    } else if i == 15 {
        Some(("mrcup", "cursor_mem_address"))
    } else if i == 16 {
        Some(("cnorm", "cursor_normal"))
    } else if i == 17 {
        Some(("cuf1", "cursor_right"))
    } else if i == 18 {
        Some(("ll", "cursor_to_ll"))
    } else if i == 19 {
        Some(("cuu1", "cursor_up"))
    } else if i == 20 {
        Some(("cvvis", "cursor_visible"))
    } else if i == 21 {
        Some(("dch1", "delete_character"))
    } else if i == 22 {
        Some(("dl1", "delete_line"))
    } else if i == 23 {
        Some(("dsl", "dis_status_line"))
    } else if i == 24 {
        Some(("hd", "down_half_line"))
    } else if i == 25 {
        Some(("smacs", "enter_alt_charset_mode"))
    } else if i == 26 {
        Some(("blink", "enter_blink_mode"))
    } else if i == 27 {
        Some(("bold", "enter_bold_mode"))
    } else if i == 28 {
        Some(("smcup", "enter_ca_mode"))
    } else if i == 29 {
        Some(("smdc", "enter_delete_mode"))
    } else if i == 30 {
        Some(("dim", "enter_dim_mode"))
    } else if i == 31 {
        Some(("smir", "enter_insert_mode"))
    } else if i == 32 {
        Some(("invis", "enter_secure_mode"))
    } else if i == 33 {
        Some(("prot", "enter_protected_mode"))
    } else if i == 34 {
        Some(("rev", "enter_reverse_mode"))
    } else if i == 35 {
        Some(("smso", "enter_standout_mode"))
    } else if i == 36 {
        Some(("smul", "enter_underline_mode"))
    } else if i == 37 {
        Some(("ech", "erase_chars"))
    } else if i == 38 {
        Some(("rmacs", "exit_alt_charset_mode"))
    } else if i == 39 {
        Some(("sgr0", "exit_attribute_mode"))
    } else if i == 40 {
        Some(("rmcup", "exit_ca_mode"))
    } else if i == 41 {
        Some(("rmdc", "exit_delete_mode"))
    } else if i == 42 {
        Some(("rmir", "exit_insert_mode"))
    } else if i == 43 {
        Some(("rmso", "exit_standout_mode"))
    } else if i == 44 {
        Some(("rmul", "exit_underline_mode"))
    } else if i == 45 {
        Some(("flash", "flash_screen"))
    } else if i == 46 {
        Some(("ff", "form_feed"))
    } else if i == 47 {
        Some(("fsl", "from_status_line"))
    } else if i == 48 {
        Some(("is1", "init_1string"))
    } else if i == 49 {
        Some(("is2", "init_2string"))
    } else if i == 50 {
        Some(("is3", "init_3string"))
    } else if i == 51 {
        Some(("if", "init_file"))
    } else if i == 52 {
        Some(("ich1", "insert_character"))
    } else if i == 53 {
        Some(("il1", "insert_line"))
    } else if i == 54 {
        Some(("ip", "insert_padding"))
    } else if i == 55 {
        Some(("kbs", "key_backspace"))
    } else if i == 56 {
        Some(("ktbc", "key_catab"))
    } else if i == 57 {
        Some(("kclr", "key_clear"))
    } else if i == 58 {
        Some(("kctab", "key_ctab"))
    } else if i == 59 {
        Some(("kdch1", "key_dc"))
    } else if i == 60 {
        Some(("kdl1", "key_dl"))
    } else if i == 61 {
        Some(("kcud1", "key_down"))
    } else if i == 62 {
        Some(("krmir", "key_eic"))
    } else if i == 63 {
        Some(("kel", "key_eol"))
    } else if i == 64 {
        Some(("ked", "key_eos"))
    } else if i == 65 {
        Some(("kf0", "key_f0"))
    } else if i == 66 {
        Some(("kf1", "key_f1"))
    } else if i == 67 {
        Some(("kf10", "key_f10"))
    } else if i == 68 {
        Some(("kf2", "key_f2"))
    } else if i == 69 {
        Some(("kf3", "key_f3"))
    } else if i == 70 {
        Some(("kf4", "key_f4"))
    } else if i == 71 {
        Some(("kf5", "key_f5"))
    } else if i == 72 {
        Some(("kf6", "key_f6"))
    } else if i == 73 {
        Some(("kf7", "key_f7"))
    } else if i == 74 {
        Some(("kf8", "key_f8"))
    } else if i == 75 {
        Some(("kf9", "key_f9"))
    } else if i == 76 {
        Some(("khome", "key_home"))
    } else if i == 77 {
        Some(("kich1", "key_ic"))
    } else if i == 78 {
        Some(("kil1", "key_il"))
    } else if i == 79 {
        Some(("kcub1", "key_left"))
    } else if i == 80 {
        Some(("kll", "key_ll"))
    } else if i == 81 {
        Some(("knp", "key_npage"))
    } else if i == 82 {
        Some(("kpp", "key_ppage"))
    } else if i == 83 {
        Some(("kcuf1", "key_right"))
    } else if i == 84 {
        Some(("kind", "key_sf"))
    } else if i == 85 {
        Some(("kri", "key_sr"))
    } else if i == 86 {
        Some(("khts", "key_stab"))
    } else if i == 87 {
        Some(("kcuu1", "key_up"))
    } else if i == 88 {
        Some(("rmkx", "keypad_local"))
    } else if i == 89 {
        Some(("smkx", "keypad_xmit"))
    } else if i == 90 {
        Some(("lf0", "lab_f0"))
    } else if i == 91 {
        Some(("lf1", "lab_f1"))
    } else if i == 92 {
        Some(("lf10", "lab_f10"))
    } else if i == 93 {
        Some(("lf2", "lab_f2"))
    } else if i == 94 {
        Some(("lf3", "lab_f3"))
    } else if i == 95 {
        Some(("lf4", "lab_f4"))
    } else if i == 96 {
        Some(("lf5", "lab_f5"))
    } else if i == 97 {
        Some(("lf6", "lab_f6"))
    } else if i == 98 {
        Some(("lf7", "lab_f7"))
    } else if i == 99 {
        Some(("lf8", "lab_f8"))
    } else {
        None
    }
}

fn string_entry_at_0(i: usize) -> (r: Option<(&'static str, &'static str)>)
    ensures
        r == string_entry_0(i as int),
{
    match i {
        0 => Some(("cbt", "back_tab")),
        1 => Some(("bel", "bell")),
        2 => Some(("cr", "carriage_return")),
        3 => Some(("csr", "change_scroll_region")),
        4 => Some(("tbc", "clear_all_tabs")),
        5 => Some(("clear", "clear_screen")),
        6 => Some(("el", "clr_eol")),
        7 => Some(("ed", "clr_eos")),
        8 => Some(("hpa", "column_address")),
        9 => Some(("cmdch", "command_character")),
        10 => Some(("cup", "cursor_address")),
        11 => Some(("cud1", "cursor_down")),
        12 => Some(("home", "cursor_home")),
        13 => Some(("civis", "cursor_invisible")),
        14 => Some(("cub1", "cursor_left")),
        15 => Some(("mrcup", "cursor_mem_address")),
        16 => Some(("cnorm", "cursor_normal")),
        17 => Some(("cuf1", "cursor_right")),
        18 => Some(("ll", "cursor_to_ll")),
        19 => Some(("cuu1", "cursor_up")),
        20 => Some(("cvvis", "cursor_visible")),
        21 => Some(("dch1", "delete_character")),
        22 => Some(("dl1", "delete_line")),
        23 => Some(("dsl", "dis_status_line")),
        24 => Some(("hd", "down_half_line")),
        25 => Some(("smacs", "enter_alt_charset_mode")),
        26 => Some(("blink", "enter_blink_mode")),
        27 => Some(("bold", "enter_bold_mode")),
        28 => Some(("smcup", "enter_ca_mode")),
        29 => Some(("smdc", "enter_delete_mode")),
        30 => Some(("dim", "enter_dim_mode")),
        31 => Some(("smir", "enter_insert_mode")),
        32 => Some(("invis", "enter_secure_mode")),
        33 => Some(("prot", "enter_protected_mode")),
        34 => Some(("rev", "enter_reverse_mode")),
        35 => Some(("smso", "enter_standout_mode")),
        36 => Some(("smul", "enter_underline_mode")),
        37 => Some(("ech", "erase_chars")),
        38 => Some(("rmacs", "exit_alt_charset_mode")),
        39 => Some(("sgr0", "exit_attribute_mode")),
        40 => Some(("rmcup", "exit_ca_mode")),
        41 => Some(("rmdc", "exit_delete_mode")),
        42 => Some(("rmir", "exit_insert_mode")),
        43 => Some(("rmso", "exit_standout_mode")),
        44 => Some(("rmul", "exit_underline_mode")),
        45 => Some(("flash", "flash_screen")),
        46 => Some(("ff", "form_feed")),
        47 => Some(("fsl", "from_status_line")),
        48 => Some(("is1", "init_1string")),
        49 => Some(("is2", "init_2string")),
        50 => Some(("is3", "init_3string")),
        51 => Some(("if", "init_file")),
        52 => Some(("ich1", "insert_character")),
        53 => Some(("il1", "insert_line")),
        54 => Some(("ip", "insert_padding")),
        55 => Some(("kbs", "key_backspace")),
        56 => Some(("ktbc", "key_catab")),
        57 => Some(("kclr", "key_clear")),
        58 => Some(("kctab", "key_ctab")),
        59 => Some(("kdch1", "key_dc")),
        60 => Some(("kdl1", "key_dl")),
        61 => Some(("kcud1", "key_down")),
        62 => Some(("krmir", "key_eic")),
        63 => Some(("kel", "key_eol")),
        64 => Some(("ked", "key_eos")),
        65 => Some(("kf0", "key_f0")),
        66 => Some(("kf1", "key_f1")),
        67 => Some(("kf10", "key_f10")),
        68 => Some(("kf2", "key_f2")),
        69 => Some(("kf3", "key_f3")),
        70 => Some(("kf4", "key_f4")),
        71 => Some(("kf5", "key_f5")),
        72 => Some(("kf6", "key_f6")),
        73 => Some(("kf7", "key_f7")),
        74 => Some(("kf8", "key_f8")),
        75 => Some(("kf9", "key_f9")),
        76 => Some(("khome", "key_home")),
        77 => Some(("kich1", "key_ic")),
        78 => Some(("kil1", "key_il")),
        79 => Some(("kcub1", "key_left")),
        80 => Some(("kll", "key_ll")),
        81 => Some(("knp", "key_npage")),
        82 => Some(("kpp", "key_ppage")),
        83 => Some(("kcuf1", "key_right")),
        84 => Some(("kind", "key_sf")),
        85 => Some(("kri", "key_sr")),
        86 => Some(("khts", "key_stab")),
        87 => Some(("kcuu1", "key_up")),
        88 => Some(("rmkx", "keypad_local")),
        89 => Some(("smkx", "keypad_xmit")),
        90 => Some(("lf0", "lab_f0")),
        91 => Some(("lf1", "lab_f1")),
        92 => Some(("lf10", "lab_f10")),
        93 => Some(("lf2", "lab_f2")),
        94 => Some(("lf3", "lab_f3")),
        95 => Some(("lf4", "lab_f4")),
        96 => Some(("lf5", "lab_f5")),
        97 => Some(("lf6", "lab_f6")),
        98 => Some(("lf7", "lab_f7")),
        99 => Some(("lf8", "lab_f8")),
        _ => None,
    }
}

/// Part of the string table, ordinals 100 and up.
pub open spec fn string_entry_1(i: int) -> Option<(&'static str, &'static str)> {
    if i == 100 {
        Some(("lf9", "lab_f9"))
    } else if i == 101 {
        Some(("rmm", "meta_off"))
    } else if i == 102 {
        Some(("smm", "meta_on"))
    } else if i == 103 {
        Some(("nel", "newline"))
    } else if i == 104 {
        Some(("pad", "pad_char"))
    } else if i == 105 {
        Some(("dch", "parm_dch"))
    } else if i == 106 {
        Some(("dl", "parm_delete_line"))
    } else if i == 107 {
        Some(("cud", "parm_down_cursor"))
    } else if i == 108 {
        Some(("ich", "parm_ich"))
    } else if i == 109 {
        Some(("indn", "parm_index"))
    } else if i == 110 {
        Some(("il", "parm_insert_line"))
    } else if i == 111 {
        Some(("cub", "parm_left_cursor"))
    } else if i == 112 {
        Some(("cuf", "parm_right_cursor"))
    } else if i == 113 {
        Some(("rin", "parm_rindex"))
    } else if i == 114 {
        Some(("cuu", "parm_up_cursor"))
    } else if i == 115 {
        Some(("pfkey", "pkey_key"))
    } else if i == 116 {
        Some(("pfloc", "pkey_local"))
    } else if i == 117 {
        Some(("pfx", "pkey_xmit"))
    } else if i == 118 {
        Some(("mc0", "print_screen"))
    } else if i == 119 {
        Some(("mc4", "prtr_off"))
    } else if i == 120 {
        Some(("mc5", "prtr_on"))
    } else if i == 121 {
        Some(("rep", "repeat_char"))
    } else if i == 122 {
        Some(("rs1", "reset_1string"))
    } else if i == 123 {
        Some(("rs2", "reset_2string"))
    } else if i == 124 {
        Some(("rs3", "reset_3string"))
    } else if i == 125 {
        Some(("rf", "reset_file"))
    } else if i == 126 {
        Some(("rc", "restore_cursor"))
    } else if i == 127 {
        Some(("vpa", "row_address"))
    } else if i == 128 {
        Some(("sc", "save_cursor"))
    } else if i == 129 {
        Some(("ind", "scroll_forward"))
    } else if i == 130 {
        Some(("ri", "scroll_reverse"))
    } else if i == 131 {
        Some(("sgr", "set_attributes"))
    } else if i == 132 {
        Some(("hts", "set_tab"))
    } else if i == 133 {
        Some(("wind", "set_window"))
    } else if i == 134 {
        Some(("ht", "tab"))
    } else if i == 135 {
        Some(("tsl", "to_status_line"))
    } else if i == 136 {
        Some(("uc", "underline_char"))
    } else if i == 137 {
        Some(("hu", "up_half_line"))
    } else if i == 138 {
        Some(("iprog", "init_prog"))
    } else if i == 139 {
        Some(("ka1", "key_a1"))
    } else if i == 140 {
        Some(("ka3", "key_a3"))
    } else if i == 141 {
        Some(("kb2", "key_b2"))
    } else if i == 142 {
        Some(("kc1", "key_c1"))
    } else if i == 143 {
        Some(("kc3", "key_c3"))
    } else if i == 144 {
        Some(("mc5p", "prtr_non"))
    } else if i == 145 {
        Some(("rmp", "char_padding"))
    } else if i == 146 {
        Some(("acsc", "acs_chars"))
    } else if i == 147 {
        Some(("pln", "plab_norm"))
    } else if i == 148 {
        Some(("kcbt", "key_btab"))
    } else if i == 149 {
        Some(("smxon", "enter_xon_mode"))
    } else if i == 150 {
        Some(("rmxon", "exit_xon_mode"))
    } else if i == 151 {
        Some(("smam", "enter_am_mode"))
    } else if i == 152 {
        Some(("rmam", "exit_am_mode"))
    } else if i == 153 {
        Some(("xonc", "xon_character"))
    } else if i == 154 {
        Some(("xoffc", "xoff_character"))
    } else if i == 155 {
        Some(("enacs", "ena_acs"))
    } else if i == 156 {
        Some(("smln", "label_on"))
    } else if i == 157 {
        Some(("rmln", "label_off"))
    } else if i == 158 {
        Some(("kbeg", "key_beg"))
    } else if i == 159 {
        Some(("kcan", "key_cancel"))
    } else if i == 160 {
        Some(("kclo", "key_close"))
    } else if i == 161 {
        Some(("kcmd", "key_command"))
    } else if i == 162 {
        Some(("kcpy", "key_copy"))
    } else if i == 163 {
        Some(("kcrt", "key_create"))
    } else if i == 164 {
        Some(("kend", "key_end"))
    } else if i == 165 {
        Some(("kent", "key_enter"))
    } else if i == 166 {
        Some(("kext", "key_exit"))
    } else if i == 167 {
        Some(("kfnd", "key_find"))
    } else if i == 168 {
        Some(("khlp", "key_help"))
    } else if i == 169 {
        Some(("kmrk", "key_mark"))
    } else if i == 170 {
        Some(("kmsg", "key_message"))
    } else if i == 171 {
        Some(("kmov", "key_move"))
    } else if i == 172 {
        Some(("knxt", "key_next"))
    } else if i == 173 {
        Some(("kopn", "key_open"))
    } else if i == 174 {
        Some(("kopt", "key_options"))
    } else if i == 175 {
        Some(("kprv", "key_previous"))
    } else if i == 176 {
        Some(("kprt", "key_print"))
    } else if i == 177 {
        Some(("krdo", "key_redo"))
    } else if i == 178 {
        Some(("kref", "key_reference"))
    } else if i == 179 {
        Some(("krfr", "key_refresh"))
    } else if i == 180 {
        Some(("krpl", "key_replace"))
    } else if i == 181 {
        Some(("krst", "key_restart"))
    } else if i == 182 {
        Some(("kres", "key_resume"))
    } else if i == 183 {
        Some(("ksav", "key_save"))
    } else if i == 184 {
        Some(("kspd", "key_suspend"))
    } else if i == 185 {
        Some(("kund", "key_undo"))
    } else if i == 186 {
        Some(("kBEG", "key_sbeg"))
    } else if i == 187 {
        Some(("kCAN", "key_scancel"))
    } else if i == 188 {
        Some(("kCMD", "key_scommand"))
    } else if i == 189 {
        Some(("kCPY", "key_scopy"))
    } else if i == 190 {
        Some(("kCRT", "key_screate"))
    } else if i == 191 {
        Some(("kDC", "key_sdc"))
    } else if i == 192 {
        Some(("kDL", "key_sdl"))
    } else if i == 193 {
        Some(("kslt", "key_select"))
    } else if i == 194 {
        Some(("kEND", "key_send"))
    } else if i == 195 {
        Some(("kEOL", "key_seol"))
    } else if i == 196 {
        Some(("kEXT", "key_sexit"))
    } else if i == 197 {
        Some(("kFND", "key_sfind"))
    } else if i == 198 {
        Some(("kHLP", "key_shelp"))
    } else if i == 199 {
        Some(("kHOM", "key_shome"))
    } else {
        None
    }
}

fn string_entry_at_1(i: usize) -> (r: Option<(&'static str, &'static str)>)
    ensures
        r == string_entry_1(i as int),
{
    match i {
        100 => Some(("lf9", "lab_f9")),
        101 => Some(("rmm", "meta_off")),
        102 => Some(("smm", "meta_on")),
        103 => Some(("nel", "newline")),
        104 => Some(("pad", "pad_char")),
        105 => Some(("dch", "parm_dch")),
        106 => Some(("dl", "parm_delete_line")),
        107 => Some(("cud", "parm_down_cursor")),
        108 => Some(("ich", "parm_ich")),
        109 => Some(("indn", "parm_index")),
        110 => Some(("il", "parm_insert_line")),
        111 => Some(("cub", "parm_left_cursor")),
        112 => Some(("cuf", "parm_right_cursor")),
        113 => Some(("rin", "parm_rindex")),
        114 => Some(("cuu", "parm_up_cursor")),
        115 => Some(("pfkey", "pkey_key")),
        116 => Some(("pfloc", "pkey_local")),
        117 => Some(("pfx", "pkey_xmit")),
        118 => Some(("mc0", "print_screen")),
        119 => Some(("mc4", "prtr_off")),
        120 => Some(("mc5", "prtr_on")),
        121 => Some(("rep", "repeat_char")),
        122 => Some(("rs1", "reset_1string")),
        123 => Some(("rs2", "reset_2string")),
        124 => Some(("rs3", "reset_3string")),
        125 => Some(("rf", "reset_file")),
        126 => Some(("rc", "restore_cursor")),
        127 => Some(("vpa", "row_address")),
        128 => Some(("sc", "save_cursor")),
        129 => Some(("ind", "scroll_forward")),
        130 => Some(("ri", "scroll_reverse")),
        131 => Some(("sgr", "set_attributes")),
        132 => Some(("hts", "set_tab")),
        133 => Some(("wind", "set_window")),
        134 => Some(("ht", "tab")),
        135 => Some(("tsl", "to_status_line")),
        136 => Some(("uc", "underline_char")),
        137 => Some(("hu", "up_half_line")),
        138 => Some(("iprog", "init_prog")),
        139 => Some(("ka1", "key_a1")),
        140 => Some(("ka3", "key_a3")),
        141 => Some(("kb2", "key_b2")),
        142 => Some(("kc1", "key_c1")),
        143 => Some(("kc3", "key_c3")),
        144 => Some(("mc5p", "prtr_non")),
        145 => Some(("rmp", "char_padding")),
        146 => Some(("acsc", "acs_chars")),
        147 => Some(("pln", "plab_norm")),
        148 => Some(("kcbt", "key_btab")),
        149 => Some(("smxon", "enter_xon_mode")),
        150 => Some(("rmxon", "exit_xon_mode")),
        151 => Some(("smam", "enter_am_mode")),
        152 => Some(("rmam", "exit_am_mode")),
        153 => Some(("xonc", "xon_character")),
        154 => Some(("xoffc", "xoff_character")),
        155 => Some(("enacs", "ena_acs")),
        156 => Some(("smln", "label_on")),
        157 => Some(("rmln", "label_off")),
        158 => Some(("kbeg", "key_beg")),
        159 => Some(("kcan", "key_cancel")),
        160 => Some(("kclo", "key_close")),
        161 => Some(("kcmd", "key_command")),
        162 => Some(("kcpy", "key_copy")),
        163 => Some(("kcrt", "key_create")),
        164 => Some(("kend", "key_end")),
        165 => Some(("kent", "key_enter")),
        166 => Some(("kext", "key_exit")),
        167 => Some(("kfnd", "key_find")),
        168 => Some(("khlp", "key_help")),
        169 => Some(("kmrk", "key_mark")),
        170 => Some(("kmsg", "key_message")),
        171 => Some(("kmov", "key_move")),
        172 => Some(("knxt", "key_next")),
        173 => Some(("kopn", "key_open")),
        174 => Some(("kopt", "key_options")),
        175 => Some(("kprv", "key_previous")),
        176 => Some(("kprt", "key_print")),
        177 => Some(("krdo", "key_redo")),
        178 => Some(("kref", "key_reference")),
        179 => Some(("krfr", "key_refresh")),
        180 => Some(("krpl", "key_replace")),
        181 => Some(("krst", "key_restart")),
        182 => Some(("kres", "key_resume")),
        183 => Some(("ksav", "key_save")),
        184 => Some(("kspd", "key_suspend")),
        185 => Some(("kund", "key_undo")),
        186 => Some(("kBEG", "key_sbeg")),
        187 => Some(("kCAN", "key_scancel")),
        188 => Some(("kCMD", "key_scommand")),
        189 => Some(("kCPY", "key_scopy")),
        190 => Some(("kCRT", "key_screate")),
        191 => Some(("kDC", "key_sdc")),
        192 => Some(("kDL", "key_sdl")),
        193 => Some(("kslt", "key_select")),
        194 => Some(("kEND", "key_send")),
        195 => Some(("kEOL", "key_seol")),
        196 => Some(("kEXT", "key_sexit")),
        197 => Some(("kFND", "key_sfind")),
        198 => Some(("kHLP", "key_shelp")),
        199 => Some(("kHOM", "key_shome")),
        _ => None,
    }
}

/// Part of the string table, ordinals 200 and up.
pub open spec fn string_entry_2(i: int) -> Option<(&'static str, &'static str)> {
    if i == 200 {
        Some(("kIC", "key_sic"))
    } else if i == 201 {
        Some(("kLFT", "key_sleft"))
    } else if i == 202 {
        Some(("kMSG", "key_smessage"))
    } else if i == 203 {
        Some(("kMOV", "key_smove"))
    } else if i == 204 {
        Some(("kNXT", "key_snext"))
    } else if i == 205 {
        Some(("kOPT", "key_soptions"))
    } else if i == 206 {
        Some(("kPRV", "key_sprevious"))
    } else if i == 207 {
        Some(("kPRT", "key_sprint"))
    } else if i == 208 {
        Some(("kRDO", "key_sredo"))
    } else if i == 209 {
        Some(("kRPL", "key_sreplace"))
    } else if i == 210 {
        Some(("kRIT", "key_sright"))
    } else if i == 211 {
        Some(("kRES", "key_srsume"))
    } else if i == 212 {
        Some(("kSAV", "key_ssave"))
    } else if i == 213 {
        Some(("kSPD", "key_ssuspend"))
    } else if i == 214 {
        Some(("kUND", "key_sundo"))
    } else if i == 215 {
        Some(("rfi", "req_for_input"))
    } else if i == 216 {
        Some(("kf11", "key_f11"))
    } else if i == 217 {
        Some(("kf12", "key_f12"))
    } else if i == 218 {
        Some(("kf13", "key_f13"))
    } else if i == 219 {
        Some(("kf14", "key_f14"))
    } else if i == 220 {
        Some(("kf15", "key_f15"))
    } else if i == 221 {
        Some(("kf16", "key_f16"))
    } else if i == 222 {
        Some(("kf17", "key_f17"))
    } else if i == 223 {
        Some(("kf18", "key_f18"))
    } else if i == 224 {
        Some(("kf19", "key_f19"))
    } else if i == 225 {
        Some(("kf20", "key_f20"))
    } else if i == 226 {
        Some(("kf21", "key_f21"))
    } else if i == 227 {
        Some(("kf22", "key_f22"))
    } else if i == 228 {
        Some(("kf23", "key_f23"))
    } else if i == 229 {
        Some(("kf24", "key_f24"))
    } else if i == 230 {
        Some(("kf25", "key_f25"))
    } else if i == 231 {
        Some(("kf26", "key_f26"))
    } else if i == 232 {
        Some(("kf27", "key_f27"))
    } else if i == 233 {
        Some(("kf28", "key_f28"))
    } else if i == 234 {
        Some(("kf29", "key_f29"))
    } else if i == 235 {
        Some(("kf30", "key_f30"))
    } else if i == 236 {
        Some(("kf31", "key_f31"))
    } else if i == 237 {
        Some(("kf32", "key_f32"))
    } else if i == 238 {
        Some(("kf33", "key_f33"))
    } else if i == 239 {
        Some(("kf34", "key_f34"))
    } else if i == 240 {
        Some(("kf35", "key_f35"))
    } else if i == 241 {
        Some(("kf36", "key_f36"))
    } else if i == 242 {
        Some(("kf37", "key_f37"))
    } else if i == 243 {
        Some(("kf38", "key_f38"))
    } else if i == 244 {
        Some(("kf39", "key_f39"))
    } else if i == 245 {
        Some(("kf40", "key_f40"))
    } else if i == 246 {
        Some(("kf41", "key_f41"))
    } else if i == 247 {
        Some(("kf42", "key_f42"))
    } else if i == 248 {
        Some(("kf43", "key_f43"))
    } else if i == 249 {
        Some(("kf44", "key_f44"))
    } else if i == 250 {
        Some(("kf45", "key_f45"))
    } else if i == 251 {
        Some(("kf46", "key_f46"))
    } else if i == 252 {
        Some(("kf47", "key_f47"))
    } else if i == 253 {
        Some(("kf48", "key_f48"))
    } else if i == 254 {
        Some(("kf49", "key_f49"))
    } else if i == 255 {
        Some(("kf50", "key_f50"))
    } else if i == 256 {
        Some(("kf51", "key_f51"))
    } else if i == 257 {
        Some(("kf52", "key_f52"))
    } else if i == 258 {
        Some(("kf53", "key_f53"))
    } else if i == 259 {
        Some(("kf54", "key_f54"))
    } else if i == 260 {
        Some(("kf55", "key_f55"))
    } else if i == 261 {
        Some(("kf56", "key_f56"))
    } else if i == 262 {
        Some(("kf57", "key_f57"))
    } else if i == 263 {
        Some(("kf58", "key_f58"))
    } else if i == 264 {
        Some(("kf59", "key_f59"))
    } else if i == 265 {
        Some(("kf60", "key_f60"))
    } else if i == 266 {
        Some(("kf61", "key_f61"))
    } else if i == 267 {
        Some(("kf62", "key_f62"))
    } else if i == 268 {
        Some(("kf63", "key_f63"))
    } else if i == 269 {
        Some(("el1", "clr_bol"))
    } else if i == 270 {
        Some(("mgc", "clear_margins"))
    } else if i == 271 {
        Some(("smgl", "set_left_margin"))
    } else if i == 272 {
        Some(("smgr", "set_right_margin"))
    } else if i == 273 {
        Some(("fln", "label_format"))
    } else if i == 274 {
        Some(("sclk", "set_clock"))
    } else if i == 275 {
        Some(("dclk", "display_clock"))
    } else if i == 276 {
        Some(("rmclk", "remove_clock"))
    } else if i == 277 {
        Some(("cwin", "create_window"))
    } else if i == 278 {
        Some(("wingo", "goto_window"))
    } else if i == 279 {
        Some(("hup", "hangup"))
    } else if i == 280 {
        Some(("dial", "dial_phone"))
    } else if i == 281 {
        Some(("qdial", "quick_dial"))
    } else if i == 282 {
        Some(("tone", "tone"))
    } else if i == 283 {
        Some(("pulse", "pulse"))
    } else if i == 284 {
        Some(("hook", "flash_hook"))
    } else if i == 285 {
        Some(("pause", "fixed_pause"))
    } else if i == 286 {
        Some(("wait", "wait_tone"))
    } else if i == 287 {
        Some(("u0", "user0"))
    } else if i == 288 {
        Some(("u1", "user1"))
    } else if i == 289 {
        Some(("u2", "user2"))
    } else if i == 290 {
        Some(("u3", "user3"))
    } else if i == 291 {
        Some(("u4", "user4"))
    } else if i == 292 {
        Some(("u5", "user5"))
    } else if i == 293 {
        Some(("u6", "user6"))
    } else if i == 294 {
        Some(("u7", "user7"))
    } else if i == 295 {
        Some(("u8", "user8"))
    } else if i == 296 {
        Some(("u9", "user9"))
    } else if i == 297 {
        Some(("op", "orig_pair"))
    } else if i == 298 {
        Some(("oc", "orig_colors"))
    } else if i == 299 {
        Some(("initc", "initialize_color"))
    } else {
        None
    }
}

fn string_entry_at_2(i: usize) -> (r: Option<(&'static str, &'static str)>)
    ensures
        r == string_entry_2(i as int),
{
    match i {
        200 => Some(("kIC", "key_sic")),
        201 => Some(("kLFT", "key_sleft")),
        202 => Some(("kMSG", "key_smessage")),
        203 => Some(("kMOV", "key_smove")),
        204 => Some(("kNXT", "key_snext")),
        205 => Some(("kOPT", "key_soptions")),
        206 => Some(("kPRV", "key_sprevious")),
        207 => Some(("kPRT", "key_sprint")),
        208 => Some(("kRDO", "key_sredo")),
        209 => Some(("kRPL", "key_sreplace")),
        210 => Some(("kRIT", "key_sright")),
        211 => Some(("kRES", "key_srsume")),
        212 => Some(("kSAV", "key_ssave")),
        213 => Some(("kSPD", "key_ssuspend")),
        214 => Some(("kUND", "key_sundo")),
        215 => Some(("rfi", "req_for_input")),
        216 => Some(("kf11", "key_f11")),
        217 => Some(("kf12", "key_f12")),
        218 => Some(("kf13", "key_f13")),
        219 => Some(("kf14", "key_f14")),
        220 => Some(("kf15", "key_f15")),
        221 => Some(("kf16", "key_f16")),
        222 => Some(("kf17", "key_f17")),
        223 => Some(("kf18", "key_f18")),
        224 => Some(("kf19", "key_f19")),
        225 => Some(("kf20", "key_f20")),
        226 => Some(("kf21", "key_f21")),
        227 => Some(("kf22", "key_f22")),
        228 => Some(("kf23", "key_f23")),
        229 => Some(("kf24", "key_f24")),
        230 => Some(("kf25", "key_f25")),
        231 => Some(("kf26", "key_f26")),
        232 => Some(("kf27", "key_f27")),
        233 => Some(("kf28", "key_f28")),
        234 => Some(("kf29", "key_f29")),
        235 => Some(("kf30", "key_f30")),
        236 => Some(("kf31", "key_f31")),
        237 => Some(("kf32", "key_f32")),
        238 => Some(("kf33", "key_f33")),
        239 => Some(("kf34", "key_f34")),
        240 => Some(("kf35", "key_f35")),
        241 => Some(("kf36", "key_f36")),
        242 => Some(("kf37", "key_f37")),
        243 => Some(("kf38", "key_f38")),
        244 => Some(("kf39", "key_f39")),
        245 => Some(("kf40", "key_f40")),
        246 => Some(("kf41", "key_f41")),
        247 => Some(("kf42", "key_f42")),
        248 => Some(("kf43", "key_f43")),
        249 => Some(("kf44", "key_f44")),
        250 => Some(("kf45", "key_f45")),
        251 => Some(("kf46", "key_f46")),
        252 => Some(("kf47", "key_f47")),
        253 => Some(("kf48", "key_f48")),
        254 => Some(("kf49", "key_f49")),
        255 => Some(("kf50", "key_f50")),
        256 => Some(("kf51", "key_f51")),
        257 => Some(("kf52", "key_f52")),
        258 => Some(("kf53", "key_f53")),
        259 => Some(("kf54", "key_f54")),
        260 => Some(("kf55", "key_f55")),
        261 => Some(("kf56", "key_f56")),
        262 => Some(("kf57", "key_f57")),
        263 => Some(("kf58", "key_f58")),
        264 => Some(("kf59", "key_f59")),
        265 => Some(("kf60", "key_f60")),
        266 => Some(("kf61", "key_f61")),
        267 => Some(("kf62", "key_f62")),
        268 => Some(("kf63", "key_f63")),
        269 => Some(("el1", "clr_bol")),
        270 => Some(("mgc", "clear_margins")),
        271 => Some(("smgl", "set_left_margin")),
        272 => Some(("smgr", "set_right_margin")),
        273 => Some(("fln", "label_format")),
        274 => Some(("sclk", "set_clock")),
        275 => Some(("dclk", "display_clock")),
        276 => Some(("rmclk", "remove_clock")),
        277 => Some(("cwin", "create_window")),
        278 => Some(("wingo", "goto_window")),
        279 => Some(("hup", "hangup")),
        280 => Some(("dial", "dial_phone")),
        281 => Some(("qdial", "quick_dial")),
        282 => Some(("tone", "tone")),
        283 => Some(("pulse", "pulse")),
        284 => Some(("hook", "flash_hook")),
        285 => Some(("pause", "fixed_pause")),
        286 => Some(("wait", "wait_tone")),
        287 => Some(("u0", "user0")),
        288 => Some(("u1", "user1")),
        289 => Some(("u2", "user2")),
        290 => Some(("u3", "user3")),
        291 => Some(("u4", "user4")),
        292 => Some(("u5", "user5")),
        293 => Some(("u6", "user6")),
        294 => Some(("u7", "user7")),
        295 => Some(("u8", "user8")),
        296 => Some(("u9", "user9")),
        297 => Some(("op", "orig_pair")),
        298 => Some(("oc", "orig_colors")),
        299 => Some(("initc", "initialize_color")),
        _ => None,
    }
}

/// Part of the string table, ordinals 300 and up.
pub open spec fn string_entry_3(i: int) -> Option<(&'static str, &'static str)> {
    if i == 300 {
        Some(("initp", "initialize_pair"))
    } else if i == 301 {
        Some(("scp", "set_color_pair"))
    } else if i == 302 {
        Some(("setf", "set_foreground"))
    } else if i == 303 {
        Some(("setb", "set_background"))
    } else if i == 304 {
        Some(("cpi", "change_char_pitch"))
    } else if i == 305 {
        Some(("lpi", "change_line_pitch"))
    } else if i == 306 {
        Some(("chr", "change_res_horz"))
    } else if i == 307 {
        Some(("cvr", "change_res_vert"))
    } else if i == 308 {
        Some(("defc", "define_char"))
    } else if i == 309 {
        Some(("swidm", "enter_doublewide_mode"))
    } else if i == 310 {
        Some(("sdrfq", "enter_draft_quality"))
    } else if i == 311 {
        Some(("sitm", "enter_italics_mode"))
    } else if i == 312 {
        Some(("slm", "enter_leftward_mode"))
    } else if i == 313 {
        Some(("smicm", "enter_micro_mode"))
    } else if i == 314 {
        Some(("snlq", "enter_near_letter_quality"))
    } else if i == 315 {
        Some(("snrmq", "enter_normal_quality"))
    } else if i == 316 {
        Some(("sshm", "enter_shadow_mode"))
    } else if i == 317 {
        Some(("ssubm", "enter_subscript_mode"))
    } else if i == 318 {
        Some(("ssupm", "enter_superscript_mode"))
    } else if i == 319 {
        Some(("sum", "enter_upward_mode"))
    } else if i == 320 {
        Some(("rwidm", "exit_doublewide_mode"))
    } else if i == 321 {
        Some(("ritm", "exit_italics_mode"))
    } else if i == 322 {
        Some(("rlm", "exit_leftward_mode"))
    } else if i == 323 {
        Some(("rmicm", "exit_micro_mode"))
    } else if i == 324 {
        Some(("rshm", "exit_shadow_mode"))
    } else if i == 325 {
        Some(("rsubm", "exit_subscript_mode"))
    } else if i == 326 {
        Some(("rsupm", "exit_superscript_mode"))
    } else if i == 327 {
        Some(("rum", "exit_upward_mode"))
    } else if i == 328 {
        Some(("mhpa", "micro_column_address"))
    } else if i == 329 {
        Some(("mcud1", "micro_down"))
    } else if i == 330 {
        Some(("mcub1", "micro_left"))
    } else if i == 331 {
        Some(("mcuf1", "micro_right"))
    } else if i == 332 {
        Some(("mvpa", "micro_row_address"))
    } else if i == 333 {
        Some(("mcuu1", "micro_up"))
    } else if i == 334 {
        Some(("porder", "order_of_pins"))
    } else if i == 335 {
        Some(("mcud", "parm_down_micro"))
    } else if i == 336 {
        Some(("mcub", "parm_left_micro"))
    } else if i == 337 {
        Some(("mcuf", "parm_right_micro"))
    } else if i == 338 {
        Some(("mcuu", "parm_up_micro"))
    } else if i == 339 {
        Some(("scs", "select_char_set"))
    } else if i == 340 {
        Some(("smgb", "set_bottom_margin"))
    } else if i == 341 {
        Some(("smgbp", "set_bottom_margin_parm"))
    } else if i == 342 {
        Some(("smglp", "set_left_margin_parm"))
    } else if i == 343 {
        Some(("smgrp", "set_right_margin_parm"))
    } else if i == 344 {
        Some(("smgt", "set_top_margin"))
    } else if i == 345 {
        Some(("smgtp", "set_top_margin_parm"))
    } else if i == 346 {
        Some(("sbim", "start_bit_image"))
    } else if i == 347 {
        Some(("scsd", "start_char_set_def"))
    } else if i == 348 {
        Some(("rbim", "stop_bit_image"))
    } else if i == 349 {
        Some(("rcsd", "stop_char_set_def"))
    } else if i == 350 {
        Some(("subcs", "subscript_characters"))
    } else if i == 351 {
        Some(("supcs", "superscript_characters"))
    } else if i == 352 {
        Some(("docr", "these_cause_cr"))
    } else if i == 353 {
        Some(("zerom", "zero_motion"))
    } else if i == 354 {
        Some(("csnm", "char_set_names"))
    } else if i == 355 {
        Some(("kmous", "key_mouse"))
    } else if i == 356 {
        Some(("minfo", "mouse_info"))
    } else if i == 357 {
        Some(("reqmp", "req_mouse_pos"))
    } else if i == 358 {
        Some(("getm", "get_mouse"))
    } else if i == 359 {
        Some(("setaf", "set_a_foreground"))
    } else if i == 360 {
        Some(("setab", "set_a_background"))
    } else if i == 361 {
        Some(("pfxl", "pkey_plab"))
    } else if i == 362 {
        Some(("devt", "device_type"))
    } else if i == 363 {
        Some(("csin", "code_set_init"))
    } else if i == 364 {
        Some(("s0ds", "set0_des_seq"))
    } else if i == 365 {
        Some(("s1ds", "set1_des_seq"))
    } else if i == 366 {
        Some(("s2ds", "set2_des_seq"))
    } else if i == 367 {
        Some(("s3ds", "set3_des_seq"))
    } else if i == 368 {
        Some(("smglr", "set_lr_margin"))
    } else if i == 369 {
        Some(("smgtb", "set_tb_margin"))
    } else if i == 370 {
        Some(("birep", "bit_image_repeat"))
    } else if i == 371 {
        Some(("binel", "bit_image_newline"))
    } else if i == 372 {
        Some(("bicr", "bit_image_carriage_return"))
    } else if i == 373 {
        Some(("colornm", "color_names"))
    } else if i == 374 {
        Some(("defbi", "define_bit_image_region"))
    } else if i == 375 {
        Some(("endbi", "end_bit_image_region"))
    } else if i == 376 {
        Some(("setcolor", "set_color_band"))
    } else if i == 377 {
        Some(("slines", "set_page_length"))
    } else if i == 378 {
        Some(("dispc", "display_pc_char"))
    } else if i == 379 {
        Some(("smpch", "enter_pc_charset_mode"))
    } else if i == 380 {
        Some(("rmpch", "exit_pc_charset_mode"))
    } else if i == 381 {
        Some(("smsc", "enter_scancode_mode"))
    } else if i == 382 {
        Some(("rmsc", "exit_scancode_mode"))
    } else if i == 383 {
        Some(("pctrm", "pc_term_options"))
    } else if i == 384 {
        Some(("scesc", "scancode_escape"))
    } else if i == 385 {
        Some(("scesa", "alt_scancode_esc"))
    } else if i == 386 {
        Some(("ehhlm", "enter_horizontal_hl_mode"))
    } else if i == 387 {
        Some(("elhlm", "enter_left_hl_mode"))
    } else if i == 388 {
        Some(("elohlm", "enter_low_hl_mode"))
    } else if i == 389 {
        Some(("erhlm", "enter_right_hl_mode"))
    } else if i == 390 {
        Some(("ethlm", "enter_top_hl_mode"))
    } else if i == 391 {
        Some(("evhlm", "enter_vertical_hl_mode"))
    } else if i == 392 {
        Some(("sgr1", "set_a_attributes"))
    } else if i == 393 {
        Some(("slength", "set_pglen_inch"))
    } else if i == 394 {
        Some(("OTi2", "termcap_init2"))
    } else if i == 395 {
        Some(("OTrs", "termcap_reset"))
    } else if i == 396 {
        Some(("OTnl", "linefeed_if_not_lf"))
    } else if i == 397 {
        Some(("OTbc", "backspace_if_not_bs"))
    } else if i == 398 {
        Some(("OTko", "other_non_function_keys"))
    } else if i == 399 {
        Some(("OTma", "arrow_key_map"))
    } else if i == 400 {
        Some(("OTG2", "acs_ulcorner"))
    } else if i == 401 {
        Some(("OTG3", "acs_llcorner"))
    } else if i == 402 {
        Some(("OTG1", "acs_urcorner"))
    } else if i == 403 {
        Some(("OTG4", "acs_lrcorner"))
    } else if i == 404 {
        Some(("OTGR", "acs_ltee"))
    } else if i == 405 {
        Some(("OTGL", "acs_rtee"))
    } else if i == 406 {
        Some(("OTGU", "acs_btee"))
    } else if i == 407 {
        Some(("OTGD", "acs_ttee"))
    } else if i == 408 {
        Some(("OTGH", "acs_hline"))
    } else if i == 409 {
        Some(("OTGV", "acs_vline"))
    } else if i == 410 {
        Some(("OTGC", "acs_plus"))
    } else if i == 411 {
        Some(("meml", "memory_lock"))
    } else if i == 412 {
        Some(("memu", "memory_unlock"))
    } else if i == 413 {
        Some(("box1", "box_chars_1"))
    } else {
        None
    }
}

fn string_entry_at_3(i: usize) -> (r: Option<(&'static str, &'static str)>)
    ensures
        r == string_entry_3(i as int),
{
    match i {
        300 => Some(("initp", "initialize_pair")),
        301 => Some(("scp", "set_color_pair")),
        302 => Some(("setf", "set_foreground")),
        303 => Some(("setb", "set_background")),
        304 => Some(("cpi", "change_char_pitch")),
        305 => Some(("lpi", "change_line_pitch")),
        306 => Some(("chr", "change_res_horz")),
        307 => Some(("cvr", "change_res_vert")),
        308 => Some(("defc", "define_char")),
        309 => Some(("swidm", "enter_doublewide_mode")),
        310 => Some(("sdrfq", "enter_draft_quality")),
        311 => Some(("sitm", "enter_italics_mode")),
        312 => Some(("slm", "enter_leftward_mode")),
        313 => Some(("smicm", "enter_micro_mode")),
        314 => Some(("snlq", "enter_near_letter_quality")),
        315 => Some(("snrmq", "enter_normal_quality")),
        316 => Some(("sshm", "enter_shadow_mode")),
        317 => Some(("ssubm", "enter_subscript_mode")),
        318 => Some(("ssupm", "enter_superscript_mode")),
        319 => Some(("sum", "enter_upward_mode")),
        320 => Some(("rwidm", "exit_doublewide_mode")),
        321 => Some(("ritm", "exit_italics_mode")),
        322 => Some(("rlm", "exit_leftward_mode")),
        323 => Some(("rmicm", "exit_micro_mode")),
        324 => Some(("rshm", "exit_shadow_mode")),
        325 => Some(("rsubm", "exit_subscript_mode")),
        326 => Some(("rsupm", "exit_superscript_mode")),
        327 => Some(("rum", "exit_upward_mode")),
        328 => Some(("mhpa", "micro_column_address")),
        329 => Some(("mcud1", "micro_down")),
        330 => Some(("mcub1", "micro_left")),
        331 => Some(("mcuf1", "micro_right")),
        332 => Some(("mvpa", "micro_row_address")),
        333 => Some(("mcuu1", "micro_up")),
        334 => Some(("porder", "order_of_pins")),
        335 => Some(("mcud", "parm_down_micro")),
        336 => Some(("mcub", "parm_left_micro")),
        337 => Some(("mcuf", "parm_right_micro")),
        338 => Some(("mcuu", "parm_up_micro")),
        339 => Some(("scs", "select_char_set")),
        340 => Some(("smgb", "set_bottom_margin")),
        341 => Some(("smgbp", "set_bottom_margin_parm")),
        342 => Some(("smglp", "set_left_margin_parm")),
        343 => Some(("smgrp", "set_right_margin_parm")),
        344 => Some(("smgt", "set_top_margin")),
        345 => Some(("smgtp", "set_top_margin_parm")),
        346 => Some(("sbim", "start_bit_image")),
        347 => Some(("scsd", "start_char_set_def")),
        348 => Some(("rbim", "stop_bit_image")),
        349 => Some(("rcsd", "stop_char_set_def")),
        350 => Some(("subcs", "subscript_characters")),
        351 => Some(("supcs", "superscript_characters")),
        352 => Some(("docr", "these_cause_cr")),
        353 => Some(("zerom", "zero_motion")),
        354 => Some(("csnm", "char_set_names")),
        355 => Some(("kmous", "key_mouse")),
        356 => Some(("minfo", "mouse_info")),
        357 => Some(("reqmp", "req_mouse_pos")),
        358 => Some(("getm", "get_mouse")),
        359 => Some(("setaf", "set_a_foreground")),
        360 => Some(("setab", "set_a_background")),
        361 => Some(("pfxl", "pkey_plab")),
        362 => Some(("devt", "device_type")),
        363 => Some(("csin", "code_set_init")),
        364 => Some(("s0ds", "set0_des_seq")),
        365 => Some(("s1ds", "set1_des_seq")),
        366 => Some(("s2ds", "set2_des_seq")),
        367 => Some(("s3ds", "set3_des_seq")),
        368 => Some(("smglr", "set_lr_margin")),
        369 => Some(("smgtb", "set_tb_margin")),
        370 => Some(("birep", "bit_image_repeat")),
        371 => Some(("binel", "bit_image_newline")),
        372 => Some(("bicr", "bit_image_carriage_return")),
        373 => Some(("colornm", "color_names")),
        374 => Some(("defbi", "define_bit_image_region")),
        375 => Some(("endbi", "end_bit_image_region")),
        376 => Some(("setcolor", "set_color_band")),
        377 => Some(("slines", "set_page_length")),
        378 => Some(("dispc", "display_pc_char")),
        379 => Some(("smpch", "enter_pc_charset_mode")),
        380 => Some(("rmpch", "exit_pc_charset_mode")),
        381 => Some(("smsc", "enter_scancode_mode")),
        382 => Some(("rmsc", "exit_scancode_mode")),
        383 => Some(("pctrm", "pc_term_options")),
        384 => Some(("scesc", "scancode_escape")),
        385 => Some(("scesa", "alt_scancode_esc")),
        386 => Some(("ehhlm", "enter_horizontal_hl_mode")),
        387 => Some(("elhlm", "enter_left_hl_mode")),
        388 => Some(("elohlm", "enter_low_hl_mode")),
        389 => Some(("erhlm", "enter_right_hl_mode")),
        390 => Some(("ethlm", "enter_top_hl_mode")),
        391 => Some(("evhlm", "enter_vertical_hl_mode")),
        392 => Some(("sgr1", "set_a_attributes")),
        393 => Some(("slength", "set_pglen_inch")),
        394 => Some(("OTi2", "termcap_init2")),
        395 => Some(("OTrs", "termcap_reset")),
        396 => Some(("OTnl", "linefeed_if_not_lf")),
        397 => Some(("OTbc", "backspace_if_not_bs")),
        398 => Some(("OTko", "other_non_function_keys")),
        399 => Some(("OTma", "arrow_key_map")),
        400 => Some(("OTG2", "acs_ulcorner")),
        401 => Some(("OTG3", "acs_llcorner")),
        402 => Some(("OTG1", "acs_urcorner")),
        403 => Some(("OTG4", "acs_lrcorner")),
        404 => Some(("OTGR", "acs_ltee")),
        405 => Some(("OTGL", "acs_rtee")),
        406 => Some(("OTGU", "acs_btee")),
        407 => Some(("OTGD", "acs_ttee")),
        408 => Some(("OTGH", "acs_hline")),
        409 => Some(("OTGV", "acs_vline")),
        410 => Some(("OTGC", "acs_plus")),
        411 => Some(("meml", "memory_lock")),
        412 => Some(("memu", "memory_unlock")),
        413 => Some(("box1", "box_chars_1")),
        _ => None,
    }
}

/// The string table: short and long name for each ordinal.
pub open spec fn string_entry(i: int) -> Option<(&'static str, &'static str)> {
    if i < 100 {
        string_entry_0(i)
    } else if i < 200 {
        string_entry_1(i)
    } else if i < 300 {
        string_entry_2(i)
    } else {
        string_entry_3(i)
    }
}

fn string_entry_at(i: usize) -> (r: Option<(&'static str, &'static str)>)
    ensures
        r == string_entry(i as int),
{
    if i < 100 {
        string_entry_at_0(i)
    } else if i < 200 {
        string_entry_at_1(i)
    } else if i < 300 {
        string_entry_at_2(i)
    } else {
        string_entry_at_3(i)
    }
}

/// The long name under a boolean ordinal.
pub open spec fn boolean_long(i: int) -> Option<&'static str> {
    match boolean_entry(i) {
        Some(p) => Some(p.1),
        None => None,
    }
}

/// The long name under a boolean ordinal.
pub fn boolean_name(i: usize) -> (r: Option<&'static str>)
    ensures
        r == boolean_long(i as int),
{
    match boolean_entry_at(i) {
        Some(p) => Some(p.1),
        None => None,
    }
}

/// The long name under a number ordinal.
pub open spec fn number_long(i: int) -> Option<&'static str> {
    match number_entry(i) {
        Some(p) => Some(p.1),
        None => None,
    }
}

/// The long name under a number ordinal.
pub fn number_name(i: usize) -> (r: Option<&'static str>)
    ensures
        r == number_long(i as int),
{
    match number_entry_at(i) {
        Some(p) => Some(p.1),
        None => None,
    }
}

/// The long name under a string ordinal.
pub open spec fn string_long(i: int) -> Option<&'static str> {
    match string_entry(i) {
        Some(p) => Some(p.1),
        None => None,
    }
}

/// The long name under a string ordinal.
pub fn string_name(i: usize) -> (r: Option<&'static str>)
    ensures
        r == string_long(i as int),
{
    match string_entry_at(i) {
        Some(p) => Some(p.1),
        None => None,
    }
}

/// The long name the boolean table, from entry `i` on, gives a short name.
pub open spec fn find_boolean_alias(name: Seq<char>, i: int) -> Option<&'static str>
    decreases 44 - i,
{
    if i < 0 || i >= 44 {
        None
    } else {
        match boolean_entry(i) {
            Some(p) => if p.0@ == name {
                Some(p.1)
            } else {
                find_boolean_alias(name, i + 1)
            },
            None => find_boolean_alias(name, i + 1),
        }
    }
}

/// The long name the number table, from entry `i` on, gives a short name.
pub open spec fn find_number_alias(name: Seq<char>, i: int) -> Option<&'static str>
    decreases 39 - i,
{
    if i < 0 || i >= 39 {
        None
    } else {
        match number_entry(i) {
            Some(p) => if p.0@ == name {
                Some(p.1)
            } else {
                find_number_alias(name, i + 1)
            },
            None => find_number_alias(name, i + 1),
        }
    }
}

/// The long name the string table, from entry `i` on, gives a short name.
pub open spec fn find_string_alias(name: Seq<char>, i: int) -> Option<&'static str>
    decreases 414 - i,
{
    if i < 0 || i >= 414 {
        None
    } else {
        match string_entry(i) {
            Some(p) => if p.0@ == name {
                Some(p.1)
            } else {
                find_string_alias(name, i + 1)
            },
            None => find_string_alias(name, i + 1),
        }
    }
}

/// The long name a short name stands for, if the tables list it.
pub open spec fn alias_long(name: Seq<char>) -> Option<&'static str> {
    match find_boolean_alias(name, 0) {
        Some(l) => Some(l),
        None => match find_number_alias(name, 0) {
            Some(l) => Some(l),
            None => find_string_alias(name, 0),
        },
    }
}

/// A capability name taken to its canonical long form: a short name goes to
/// the long name beside it in the tables; any other name stands for itself.
pub open spec fn resolve(name: Seq<char>) -> Seq<char> {
    match alias_long(name) {
        Some(l) => l@,
        None => name,
    }
}

/// The long name a short name stands for, if the tables list it.
pub fn to_long(name: &str) -> (r: Option<&'static str>)
    ensures
        r == alias_long(name@),
{
    let mut i: usize = 0;
    while i < 44
        invariant
            i <= 44,
            find_boolean_alias(name@, 0) == find_boolean_alias(name@, i as int),
        decreases 44 - i,
    {
        match boolean_entry_at(i) {
            Some(p) => {
                if str_eq(name, p.0) {
                    return Some(p.1);
                }
            },
            None => {},
        }
        i = i + 1;
    }
    let mut i: usize = 0;
    while i < 39
        invariant
            i <= 39,
            find_boolean_alias(name@, 0) is None,
            find_number_alias(name@, 0) == find_number_alias(name@, i as int),
        decreases 39 - i,
    {
        match number_entry_at(i) {
            Some(p) => {
                if str_eq(name, p.0) {
                    return Some(p.1);
                }
            },
            None => {},
        }
        i = i + 1;
    }
    let mut i: usize = 0;
    while i < 414
        invariant
            i <= 414,
            find_boolean_alias(name@, 0) is None,
            find_number_alias(name@, 0) is None,
            find_string_alias(name@, 0) == find_string_alias(name@, i as int),
        decreases 414 - i,
    {
        match string_entry_at(i) {
            Some(p) => {
                if str_eq(name, p.0) {
                    return Some(p.1);
                }
            },
            None => {},
        }
        i = i + 1;
    }
    None
}

} // verus!
