//! Event codes of the virtual device.

use vstd::prelude::*;
use crate::key_codes::KeyCode;

verus! {

/// The event code of the virtual device for `key`. Every key has one.
pub open spec fn spec_device_code(key: KeyCode) -> Option<u16> {
    match key {
        KeyCode::KEY_ESC => Some(1),
        KeyCode::KEY_1 => Some(2),
        KeyCode::KEY_2 => Some(3),
        KeyCode::KEY_3 => Some(4),
        KeyCode::KEY_4 => Some(5),
        KeyCode::KEY_5 => Some(6),
        KeyCode::KEY_6 => Some(7),
        KeyCode::KEY_7 => Some(8),
        KeyCode::KEY_8 => Some(9),
        KeyCode::KEY_9 => Some(10),
        KeyCode::KEY_10 => Some(11),
        KeyCode::KEY_MINUS => Some(12),
        KeyCode::KEY_EQUAL => Some(13),
        KeyCode::KEY_BACKSPACE => Some(14),
        KeyCode::KEY_TAB => Some(15),
        KeyCode::KEY_Q => Some(16),
        KeyCode::KEY_W => Some(17),
        KeyCode::KEY_E => Some(18),
        KeyCode::KEY_R => Some(19),
        KeyCode::KEY_T => Some(20),
        KeyCode::KEY_Y => Some(21),
        KeyCode::KEY_U => Some(22),
        KeyCode::KEY_I => Some(23),
        KeyCode::KEY_O => Some(24),
        KeyCode::KEY_P => Some(25),
        KeyCode::KEY_LEFTBRACE => Some(26),
        KeyCode::KEY_RIGHTBRACE => Some(27),
        KeyCode::KEY_ENTER => Some(28),
        KeyCode::KEY_LEFTCTRL => Some(29),
        KeyCode::KEY_A => Some(30),
        KeyCode::KEY_S => Some(31),
        KeyCode::KEY_D => Some(32),
        KeyCode::KEY_F => Some(33),
        KeyCode::KEY_G => Some(34),
        KeyCode::KEY_H => Some(35),
        KeyCode::KEY_J => Some(36),
        KeyCode::KEY_K => Some(37),
        KeyCode::KEY_L => Some(38),
        KeyCode::KEY_SEMICOLON => Some(39),
        KeyCode::KEY_APOSTROPHE => Some(40),
        KeyCode::KEY_GRAVE => Some(41),
        KeyCode::KEY_LEFTSHIFT => Some(42),
        KeyCode::KEY_BACKSLASH => Some(43),
        KeyCode::KEY_Z => Some(44),
        KeyCode::KEY_X => Some(45),
        KeyCode::KEY_C => Some(46),
        KeyCode::KEY_V => Some(47),
        KeyCode::KEY_B => Some(48),
        KeyCode::KEY_N => Some(49),
        KeyCode::KEY_M => Some(50),
        KeyCode::KEY_COMMA => Some(51),
        KeyCode::KEY_DOT => Some(52),
        KeyCode::KEY_SLASH => Some(53),
        KeyCode::KEY_RIGHTSHIFT => Some(54),
        KeyCode::KEY_KPASTERISK => Some(55),
        KeyCode::KEY_LEFTALT => Some(56),
        KeyCode::KEY_SPACE => Some(57),
        KeyCode::KEY_CAPSLOCK => Some(58),
        KeyCode::KEY_F1 => Some(59),
        KeyCode::KEY_F2 => Some(60),
        KeyCode::KEY_F3 => Some(61),
        KeyCode::KEY_F4 => Some(62),
        KeyCode::KEY_F5 => Some(63),
        KeyCode::KEY_F6 => Some(64),
        KeyCode::KEY_F7 => Some(65),
        KeyCode::KEY_F8 => Some(66),
        KeyCode::KEY_F9 => Some(67),
        KeyCode::KEY_F10 => Some(68),
        KeyCode::KEY_NUMLOCK => Some(69),
        KeyCode::KEY_SCROLLLOCK => Some(70),
        KeyCode::KEY_KP7 => Some(71),
        KeyCode::KEY_KP8 => Some(72),
        KeyCode::KEY_KP9 => Some(73),
        KeyCode::KEY_KPMINUS => Some(74),
        KeyCode::KEY_KP4 => Some(75),
        KeyCode::KEY_KP5 => Some(76),
        KeyCode::KEY_KP6 => Some(77),
        KeyCode::KEY_KPPLUS => Some(78),
        KeyCode::KEY_KP1 => Some(79),
        KeyCode::KEY_KP2 => Some(80),
        KeyCode::KEY_KP3 => Some(81),
        KeyCode::KEY_KP0 => Some(82),
        KeyCode::KEY_KPDOT => Some(83),
        KeyCode::KEY_ZENKAKUHANKAKU => Some(85),
        KeyCode::KEY_102ND => Some(86),
        KeyCode::KEY_F11 => Some(87),
        KeyCode::KEY_F12 => Some(88),
        KeyCode::KEY_RO => Some(89),
        KeyCode::KEY_KATAKANA => Some(90),
        KeyCode::KEY_HIRAGANA => Some(91),
        KeyCode::KEY_HENKAN => Some(92),
        KeyCode::KEY_KATAKANAHIRAGANA => Some(93),
        KeyCode::KEY_MUHENKAN => Some(94),
        KeyCode::KEY_KPJPCOMMA => Some(95),
        KeyCode::KEY_KPENTER => Some(96),
        KeyCode::KEY_RIGHTCTRL => Some(97),
        KeyCode::KEY_KPSLASH => Some(98),
        KeyCode::KEY_SYSRQ => Some(99),
        KeyCode::KEY_RIGHTALT => Some(100),
        KeyCode::KEY_LINEFEED => Some(101),
        KeyCode::KEY_HOME => Some(102),
        KeyCode::KEY_UP => Some(103),
        KeyCode::KEY_PAGEUP => Some(104),
        KeyCode::KEY_LEFT => Some(105),
        KeyCode::KEY_RIGHT => Some(106),
        KeyCode::KEY_END => Some(107),
        KeyCode::KEY_DOWN => Some(108),
        KeyCode::KEY_PAGEDOWN => Some(109),
        KeyCode::KEY_INSERT => Some(110),
        KeyCode::KEY_DELETE => Some(111),
        KeyCode::KEY_MACRO => Some(112),
        KeyCode::KEY_MUTE => Some(113),
        KeyCode::KEY_VOLUMEDOWN => Some(114),
        KeyCode::KEY_VOLUMEUP => Some(115),
        KeyCode::KEY_POWER => Some(116),
        KeyCode::KEY_KPEQUAL => Some(117),
        KeyCode::KEY_KPPLUSMINUS => Some(118),
        KeyCode::KEY_PAUSE => Some(119),
        KeyCode::KEY_SCALE => Some(120),
        KeyCode::KEY_KPCOMMA => Some(121),
        KeyCode::KEY_HANGEUL => Some(122),
        KeyCode::KEY_HANJA => Some(123),
        KeyCode::KEY_YEN => Some(124),
        KeyCode::KEY_LEFTMETA => Some(125),
        KeyCode::KEY_RIGHTMETA => Some(126),
        KeyCode::KEY_COMPOSE => Some(127),
        KeyCode::KEY_STOP => Some(128),
        KeyCode::KEY_AGAIN => Some(129),
        KeyCode::KEY_PROPS => Some(130),
        KeyCode::KEY_UNDO => Some(131),
        KeyCode::KEY_FRONT => Some(132),
        KeyCode::KEY_COPY => Some(133),
        KeyCode::KEY_OPEN => Some(134),
        KeyCode::KEY_PASTE => Some(135),
        KeyCode::KEY_FIND => Some(136),
        KeyCode::KEY_CUT => Some(137),
        KeyCode::KEY_HELP => Some(138),
        KeyCode::KEY_MENU => Some(139),
        KeyCode::KEY_CALC => Some(140),
        KeyCode::KEY_SETUP => Some(141),
        KeyCode::KEY_SLEEP => Some(142),
        KeyCode::KEY_WAKEUP => Some(143),
        KeyCode::KEY_FILE => Some(144),
        KeyCode::KEY_SENDFILE => Some(145),
        KeyCode::KEY_DELETEFILE => Some(146),
        KeyCode::KEY_XFER => Some(147),
        KeyCode::KEY_PROG1 => Some(148),
        KeyCode::KEY_PROG2 => Some(149),
        KeyCode::KEY_WWW => Some(150),
        KeyCode::KEY_MSDOS => Some(151),
        KeyCode::KEY_SCREENLOCK => Some(152),
        KeyCode::KEY_ROTATE_DISPLAY => Some(153),
        KeyCode::KEY_CYCLEWINDOWS => Some(154),
        KeyCode::KEY_MAIL => Some(155),
        KeyCode::KEY_BOOKMARKS => Some(156),
        KeyCode::KEY_COMPUTER => Some(157),
        KeyCode::KEY_BACK => Some(158),
        KeyCode::KEY_FORWARD => Some(159),
        KeyCode::KEY_CLOSECD => Some(160),
        KeyCode::KEY_EJECTCD => Some(161),
        KeyCode::KEY_EJECTCLOSECD => Some(162),
        KeyCode::KEY_NEXTSONG => Some(163),
        KeyCode::KEY_PLAYPAUSE => Some(164),
        KeyCode::KEY_PREVIOUSSONG => Some(165),
        KeyCode::KEY_STOPCD => Some(166),
        KeyCode::KEY_RECORD => Some(167),
        KeyCode::KEY_REWIND => Some(168),
        KeyCode::KEY_PHONE => Some(169),
        KeyCode::KEY_ISO => Some(170),
        KeyCode::KEY_CONFIG => Some(171),
        KeyCode::KEY_HOMEPAGE => Some(172),
        KeyCode::KEY_REFRESH => Some(173),
        KeyCode::KEY_EXIT => Some(174),
        KeyCode::KEY_MOVE => Some(175),
        KeyCode::KEY_EDIT => Some(176),
        KeyCode::KEY_SCROLLUP => Some(177),
        KeyCode::KEY_SCROLLDOWN => Some(178),
        KeyCode::KEY_KPLEFTPAREN => Some(179),
        KeyCode::KEY_KPRIGHTPAREN => Some(180),
        KeyCode::KEY_NEW => Some(181),
        KeyCode::KEY_REDO => Some(182),
        KeyCode::MOUSE_LEFT => Some(272),
        KeyCode::MOUSE_RIGHT => Some(273),
        KeyCode::MOUSE_MIDDLE => Some(274),
        KeyCode::MOUSE_SIDE => Some(275),
        KeyCode::MOUSE_EXTRA => Some(276),
        KeyCode::MOUSE_FORWARD => Some(277),
        KeyCode::MOUSE_BACK => Some(278),
        KeyCode::MOUSE_TASK => Some(279),
    }
}

/// Looks up the event code of the virtual device for `key`.
pub fn device_code(key: KeyCode) -> (r: Option<u16>)
    ensures
        r == spec_device_code(key),
{
    match key {
        KeyCode::KEY_ESC => Some(1),
        KeyCode::KEY_1 => Some(2),
        KeyCode::KEY_2 => Some(3),
        KeyCode::KEY_3 => Some(4),
        KeyCode::KEY_4 => Some(5),
        KeyCode::KEY_5 => Some(6),
        KeyCode::KEY_6 => Some(7),
        KeyCode::KEY_7 => Some(8),
        KeyCode::KEY_8 => Some(9),
        KeyCode::KEY_9 => Some(10),
        KeyCode::KEY_10 => Some(11),
        KeyCode::KEY_MINUS => Some(12),
        KeyCode::KEY_EQUAL => Some(13),
        KeyCode::KEY_BACKSPACE => Some(14),
        KeyCode::KEY_TAB => Some(15),
        KeyCode::KEY_Q => Some(16),
        KeyCode::KEY_W => Some(17),
        KeyCode::KEY_E => Some(18),
        KeyCode::KEY_R => Some(19),
        KeyCode::KEY_T => Some(20),
        KeyCode::KEY_Y => Some(21),
        KeyCode::KEY_U => Some(22),
        KeyCode::KEY_I => Some(23),
        KeyCode::KEY_O => Some(24),
        KeyCode::KEY_P => Some(25),
        KeyCode::KEY_LEFTBRACE => Some(26),
        KeyCode::KEY_RIGHTBRACE => Some(27),
        KeyCode::KEY_ENTER => Some(28),
        KeyCode::KEY_LEFTCTRL => Some(29),
        KeyCode::KEY_A => Some(30),
        KeyCode::KEY_S => Some(31),
        KeyCode::KEY_D => Some(32),
        KeyCode::KEY_F => Some(33),
        KeyCode::KEY_G => Some(34),
        KeyCode::KEY_H => Some(35),
        KeyCode::KEY_J => Some(36),
        KeyCode::KEY_K => Some(37),
        KeyCode::KEY_L => Some(38),
        KeyCode::KEY_SEMICOLON => Some(39),
        KeyCode::KEY_APOSTROPHE => Some(40),
        KeyCode::KEY_GRAVE => Some(41),
        KeyCode::KEY_LEFTSHIFT => Some(42),
        KeyCode::KEY_BACKSLASH => Some(43),
        KeyCode::KEY_Z => Some(44),
        KeyCode::KEY_X => Some(45),
        KeyCode::KEY_C => Some(46),
        KeyCode::KEY_V => Some(47),
        KeyCode::KEY_B => Some(48),
        KeyCode::KEY_N => Some(49),
        KeyCode::KEY_M => Some(50),
        KeyCode::KEY_COMMA => Some(51),
        KeyCode::KEY_DOT => Some(52),
        KeyCode::KEY_SLASH => Some(53),
        KeyCode::KEY_RIGHTSHIFT => Some(54),
        KeyCode::KEY_KPASTERISK => Some(55),
        KeyCode::KEY_LEFTALT => Some(56),
        KeyCode::KEY_SPACE => Some(57),
        KeyCode::KEY_CAPSLOCK => Some(58),
        KeyCode::KEY_F1 => Some(59),
        KeyCode::KEY_F2 => Some(60),
        KeyCode::KEY_F3 => Some(61),
        KeyCode::KEY_F4 => Some(62),
        KeyCode::KEY_F5 => Some(63),
        KeyCode::KEY_F6 => Some(64),
        KeyCode::KEY_F7 => Some(65),
        KeyCode::KEY_F8 => Some(66),
        KeyCode::KEY_F9 => Some(67),
        KeyCode::KEY_F10 => Some(68),
        KeyCode::KEY_NUMLOCK => Some(69),
        KeyCode::KEY_SCROLLLOCK => Some(70),
        KeyCode::KEY_KP7 => Some(71),
        KeyCode::KEY_KP8 => Some(72),
        KeyCode::KEY_KP9 => Some(73),
        KeyCode::KEY_KPMINUS => Some(74),
        KeyCode::KEY_KP4 => Some(75),
        KeyCode::KEY_KP5 => Some(76),
        KeyCode::KEY_KP6 => Some(77),
        KeyCode::KEY_KPPLUS => Some(78),
        KeyCode::KEY_KP1 => Some(79),
        KeyCode::KEY_KP2 => Some(80),
        KeyCode::KEY_KP3 => Some(81),
        KeyCode::KEY_KP0 => Some(82),
        KeyCode::KEY_KPDOT => Some(83),
        KeyCode::KEY_ZENKAKUHANKAKU => Some(85),
        KeyCode::KEY_102ND => Some(86),
        KeyCode::KEY_F11 => Some(87),
        KeyCode::KEY_F12 => Some(88),
        KeyCode::KEY_RO => Some(89),
        KeyCode::KEY_KATAKANA => Some(90),
        KeyCode::KEY_HIRAGANA => Some(91),
        KeyCode::KEY_HENKAN => Some(92),
        KeyCode::KEY_KATAKANAHIRAGANA => Some(93),
        KeyCode::KEY_MUHENKAN => Some(94),
        KeyCode::KEY_KPJPCOMMA => Some(95),
        KeyCode::KEY_KPENTER => Some(96),
        KeyCode::KEY_RIGHTCTRL => Some(97),
        KeyCode::KEY_KPSLASH => Some(98),
        KeyCode::KEY_SYSRQ => Some(99),
        KeyCode::KEY_RIGHTALT => Some(100),
        KeyCode::KEY_LINEFEED => Some(101),
        KeyCode::KEY_HOME => Some(102),
        KeyCode::KEY_UP => Some(103),
        KeyCode::KEY_PAGEUP => Some(104),
        KeyCode::KEY_LEFT => Some(105),
        KeyCode::KEY_RIGHT => Some(106),
        KeyCode::KEY_END => Some(107),
        KeyCode::KEY_DOWN => Some(108),
        KeyCode::KEY_PAGEDOWN => Some(109),
        KeyCode::KEY_INSERT => Some(110),
        KeyCode::KEY_DELETE => Some(111),
        KeyCode::KEY_MACRO => Some(112),
        KeyCode::KEY_MUTE => Some(113),
        KeyCode::KEY_VOLUMEDOWN => Some(114),
        KeyCode::KEY_VOLUMEUP => Some(115),
        KeyCode::KEY_POWER => Some(116),
        KeyCode::KEY_KPEQUAL => Some(117),
        KeyCode::KEY_KPPLUSMINUS => Some(118),
        KeyCode::KEY_PAUSE => Some(119),
        KeyCode::KEY_SCALE => Some(120),
        KeyCode::KEY_KPCOMMA => Some(121),
        KeyCode::KEY_HANGEUL => Some(122),
        KeyCode::KEY_HANJA => Some(123),
        KeyCode::KEY_YEN => Some(124),
        KeyCode::KEY_LEFTMETA => Some(125),
        KeyCode::KEY_RIGHTMETA => Some(126),
        KeyCode::KEY_COMPOSE => Some(127),
        KeyCode::KEY_STOP => Some(128),
        KeyCode::KEY_AGAIN => Some(129),
        KeyCode::KEY_PROPS => Some(130),
        KeyCode::KEY_UNDO => Some(131),
        KeyCode::KEY_FRONT => Some(132),
        KeyCode::KEY_COPY => Some(133),
        KeyCode::KEY_OPEN => Some(134),
        KeyCode::KEY_PASTE => Some(135),
        KeyCode::KEY_FIND => Some(136),
        KeyCode::KEY_CUT => Some(137),
        KeyCode::KEY_HELP => Some(138),
        KeyCode::KEY_MENU => Some(139),
        KeyCode::KEY_CALC => Some(140),
        KeyCode::KEY_SETUP => Some(141),
        KeyCode::KEY_SLEEP => Some(142),
        KeyCode::KEY_WAKEUP => Some(143),
        KeyCode::KEY_FILE => Some(144),
        KeyCode::KEY_SENDFILE => Some(145),
        KeyCode::KEY_DELETEFILE => Some(146),
        KeyCode::KEY_XFER => Some(147),
        KeyCode::KEY_PROG1 => Some(148),
        KeyCode::KEY_PROG2 => Some(149),
        KeyCode::KEY_WWW => Some(150),
        KeyCode::KEY_MSDOS => Some(151),
        KeyCode::KEY_SCREENLOCK => Some(152),
        KeyCode::KEY_ROTATE_DISPLAY => Some(153),
        KeyCode::KEY_CYCLEWINDOWS => Some(154),
        KeyCode::KEY_MAIL => Some(155),
        KeyCode::KEY_BOOKMARKS => Some(156),
        KeyCode::KEY_COMPUTER => Some(157),
        KeyCode::KEY_BACK => Some(158),
        KeyCode::KEY_FORWARD => Some(159),
        KeyCode::KEY_CLOSECD => Some(160),
        KeyCode::KEY_EJECTCD => Some(161),
        KeyCode::KEY_EJECTCLOSECD => Some(162),
        KeyCode::KEY_NEXTSONG => Some(163),
        KeyCode::KEY_PLAYPAUSE => Some(164),
        KeyCode::KEY_PREVIOUSSONG => Some(165),
        KeyCode::KEY_STOPCD => Some(166),
        KeyCode::KEY_RECORD => Some(167),
        KeyCode::KEY_REWIND => Some(168),
        KeyCode::KEY_PHONE => Some(169),
        KeyCode::KEY_ISO => Some(170),
        KeyCode::KEY_CONFIG => Some(171),
        KeyCode::KEY_HOMEPAGE => Some(172),
        KeyCode::KEY_REFRESH => Some(173),
        KeyCode::KEY_EXIT => Some(174),
        KeyCode::KEY_MOVE => Some(175),
        KeyCode::KEY_EDIT => Some(176),
        KeyCode::KEY_SCROLLUP => Some(177),
        KeyCode::KEY_SCROLLDOWN => Some(178),
        KeyCode::KEY_KPLEFTPAREN => Some(179),
        KeyCode::KEY_KPRIGHTPAREN => Some(180),
        KeyCode::KEY_NEW => Some(181),
        KeyCode::KEY_REDO => Some(182),
        KeyCode::MOUSE_LEFT => Some(272),
        KeyCode::MOUSE_RIGHT => Some(273),
        KeyCode::MOUSE_MIDDLE => Some(274),
        KeyCode::MOUSE_SIDE => Some(275),
        KeyCode::MOUSE_EXTRA => Some(276),
        KeyCode::MOUSE_FORWARD => Some(277),
        KeyCode::MOUSE_BACK => Some(278),
        KeyCode::MOUSE_TASK => Some(279),
    }
}

} // verus!
