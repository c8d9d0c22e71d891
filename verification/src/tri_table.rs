//! The triangulation of every cube configuration of the marching-cubes
//! algorithm: row `code` lists, three edges per triangle, the triangles
//! that cut a cube with corner code `code`, and `-1` after the last one.
use vstd::prelude::*;

verus! {
const TRI_ROW_0: [i8; 16] = [-1, -1, -1, -1, -1, -1, -1, -1, -1, -1, -1, -1, -1, -1, -1, -1];
const TRI_ROW_1: [i8; 16] = [0, 8, 3, -1, -1, -1, -1, -1, -1, -1, -1, -1, -1, -1, -1, -1];
const TRI_ROW_2: [i8; 16] = [0, 1, 9, -1, -1, -1, -1, -1, -1, -1, -1, -1, -1, -1, -1, -1];
const TRI_ROW_3: [i8; 16] = [1, 8, 3, 9, 8, 1, -1, -1, -1, -1, -1, -1, -1, -1, -1, -1];
const TRI_ROW_4: [i8; 16] = [1, 2, 10, -1, -1, -1, -1, -1, -1, -1, -1, -1, -1, -1, -1, -1];
const TRI_ROW_5: [i8; 16] = [0, 8, 3, 1, 2, 10, -1, -1, -1, -1, -1, -1, -1, -1, -1, -1];
const TRI_ROW_6: [i8; 16] = [9, 2, 10, 0, 2, 9, -1, -1, -1, -1, -1, -1, -1, -1, -1, -1];
const TRI_ROW_7: [i8; 16] = [2, 8, 3, 2, 10, 8, 10, 9, 8, -1, -1, -1, -1, -1, -1, -1];
const TRI_ROW_8: [i8; 16] = [3, 11, 2, -1, -1, -1, -1, -1, -1, -1, -1, -1, -1, -1, -1, -1];
const TRI_ROW_9: [i8; 16] = [0, 11, 2, 8, 11, 0, -1, -1, -1, -1, -1, -1, -1, -1, -1, -1];
const TRI_ROW_10: [i8; 16] = [1, 9, 0, 2, 3, 11, -1, -1, -1, -1, -1, -1, -1, -1, -1, -1];
const TRI_ROW_11: [i8; 16] = [1, 11, 2, 1, 9, 11, 9, 8, 11, -1, -1, -1, -1, -1, -1, -1];
const TRI_ROW_12: [i8; 16] = [3, 10, 1, 11, 10, 3, -1, -1, -1, -1, -1, -1, -1, -1, -1, -1];
const TRI_ROW_13: [i8; 16] = [0, 10, 1, 0, 8, 10, 8, 11, 10, -1, -1, -1, -1, -1, -1, -1];
const TRI_ROW_14: [i8; 16] = [3, 9, 0, 3, 11, 9, 11, 10, 9, -1, -1, -1, -1, -1, -1, -1];
const TRI_ROW_15: [i8; 16] = [9, 8, 10, 10, 8, 11, -1, -1, -1, -1, -1, -1, -1, -1, -1, -1];
const TRI_ROW_16: [i8; 16] = [4, 7, 8, -1, -1, -1, -1, -1, -1, -1, -1, -1, -1, -1, -1, -1];
const TRI_ROW_17: [i8; 16] = [4, 3, 0, 7, 3, 4, -1, -1, -1, -1, -1, -1, -1, -1, -1, -1];
const TRI_ROW_18: [i8; 16] = [0, 1, 9, 8, 4, 7, -1, -1, -1, -1, -1, -1, -1, -1, -1, -1];
const TRI_ROW_19: [i8; 16] = [4, 1, 9, 4, 7, 1, 7, 3, 1, -1, -1, -1, -1, -1, -1, -1];
const TRI_ROW_20: [i8; 16] = [1, 2, 10, 8, 4, 7, -1, -1, -1, -1, -1, -1, -1, -1, -1, -1];
const TRI_ROW_21: [i8; 16] = [3, 4, 7, 3, 0, 4, 1, 2, 10, -1, -1, -1, -1, -1, -1, -1];
const TRI_ROW_22: [i8; 16] = [9, 2, 10, 9, 0, 2, 8, 4, 7, -1, -1, -1, -1, -1, -1, -1];
const TRI_ROW_23: [i8; 16] = [2, 10, 9, 2, 9, 7, 2, 7, 3, 7, 9, 4, -1, -1, -1, -1];
const TRI_ROW_24: [i8; 16] = [8, 4, 7, 3, 11, 2, -1, -1, -1, -1, -1, -1, -1, -1, -1, -1];
const TRI_ROW_25: [i8; 16] = [11, 4, 7, 11, 2, 4, 2, 0, 4, -1, -1, -1, -1, -1, -1, -1];
const TRI_ROW_26: [i8; 16] = [9, 0, 1, 8, 4, 7, 2, 3, 11, -1, -1, -1, -1, -1, -1, -1];
const TRI_ROW_27: [i8; 16] = [4, 7, 11, 9, 4, 11, 9, 11, 2, 9, 2, 1, -1, -1, -1, -1];
const TRI_ROW_28: [i8; 16] = [3, 10, 1, 3, 11, 10, 7, 8, 4, -1, -1, -1, -1, -1, -1, -1];
const TRI_ROW_29: [i8; 16] = [1, 11, 10, 1, 4, 11, 1, 0, 4, 7, 11, 4, -1, -1, -1, -1];
const TRI_ROW_30: [i8; 16] = [4, 7, 8, 9, 0, 11, 9, 11, 10, 11, 0, 3, -1, -1, -1, -1];
const TRI_ROW_31: [i8; 16] = [4, 7, 11, 4, 11, 9, 9, 11, 10, -1, -1, -1, -1, -1, -1, -1];
const TRI_ROW_32: [i8; 16] = [9, 5, 4, -1, -1, -1, -1, -1, -1, -1, -1, -1, -1, -1, -1, -1];
const TRI_ROW_33: [i8; 16] = [9, 5, 4, 0, 8, 3, -1, -1, -1, -1, -1, -1, -1, -1, -1, -1];
const TRI_ROW_34: [i8; 16] = [0, 5, 4, 1, 5, 0, -1, -1, -1, -1, -1, -1, -1, -1, -1, -1];
const TRI_ROW_35: [i8; 16] = [8, 5, 4, 8, 3, 5, 3, 1, 5, -1, -1, -1, -1, -1, -1, -1];
const TRI_ROW_36: [i8; 16] = [1, 2, 10, 9, 5, 4, -1, -1, -1, -1, -1, -1, -1, -1, -1, -1];
const TRI_ROW_37: [i8; 16] = [3, 0, 8, 1, 2, 10, 4, 9, 5, -1, -1, -1, -1, -1, -1, -1];
const TRI_ROW_38: [i8; 16] = [5, 2, 10, 5, 4, 2, 4, 0, 2, -1, -1, -1, -1, -1, -1, -1];
const TRI_ROW_39: [i8; 16] = [2, 10, 5, 3, 2, 5, 3, 5, 4, 3, 4, 8, -1, -1, -1, -1];
const TRI_ROW_40: [i8; 16] = [9, 5, 4, 2, 3, 11, -1, -1, -1, -1, -1, -1, -1, -1, -1, -1];
const TRI_ROW_41: [i8; 16] = [0, 11, 2, 0, 8, 11, 4, 9, 5, -1, -1, -1, -1, -1, -1, -1];
const TRI_ROW_42: [i8; 16] = [0, 5, 4, 0, 1, 5, 2, 3, 11, -1, -1, -1, -1, -1, -1, -1];
const TRI_ROW_43: [i8; 16] = [2, 1, 5, 2, 5, 8, 2, 8, 11, 4, 8, 5, -1, -1, -1, -1];
const TRI_ROW_44: [i8; 16] = [10, 3, 11, 10, 1, 3, 9, 5, 4, -1, -1, -1, -1, -1, -1, -1];
const TRI_ROW_45: [i8; 16] = [4, 9, 5, 0, 8, 1, 8, 10, 1, 8, 11, 10, -1, -1, -1, -1];
const TRI_ROW_46: [i8; 16] = [5, 4, 0, 5, 0, 11, 5, 11, 10, 11, 0, 3, -1, -1, -1, -1];
const TRI_ROW_47: [i8; 16] = [5, 4, 8, 5, 8, 10, 10, 8, 11, -1, -1, -1, -1, -1, -1, -1];
const TRI_ROW_48: [i8; 16] = [9, 7, 8, 5, 7, 9, -1, -1, -1, -1, -1, -1, -1, -1, -1, -1];
const TRI_ROW_49: [i8; 16] = [9, 3, 0, 9, 5, 3, 5, 7, 3, -1, -1, -1, -1, -1, -1, -1];
const TRI_ROW_50: [i8; 16] = [0, 7, 8, 0, 1, 7, 1, 5, 7, -1, -1, -1, -1, -1, -1, -1];
const TRI_ROW_51: [i8; 16] = [1, 5, 3, 3, 5, 7, -1, -1, -1, -1, -1, -1, -1, -1, -1, -1];
const TRI_ROW_52: [i8; 16] = [9, 7, 8, 9, 5, 7, 10, 1, 2, -1, -1, -1, -1, -1, -1, -1];
const TRI_ROW_53: [i8; 16] = [10, 1, 2, 9, 5, 0, 5, 3, 0, 5, 7, 3, -1, -1, -1, -1];
const TRI_ROW_54: [i8; 16] = [8, 0, 2, 8, 2, 5, 8, 5, 7, 10, 5, 2, -1, -1, -1, -1];
const TRI_ROW_55: [i8; 16] = [2, 10, 5, 2, 5, 3, 3, 5, 7, -1, -1, -1, -1, -1, -1, -1];
const TRI_ROW_56: [i8; 16] = [7, 9, 5, 7, 8, 9, 3, 11, 2, -1, -1, -1, -1, -1, -1, -1];
const TRI_ROW_57: [i8; 16] = [9, 5, 7, 9, 7, 2, 9, 2, 0, 2, 7, 11, -1, -1, -1, -1];
const TRI_ROW_58: [i8; 16] = [2, 3, 11, 0, 1, 8, 1, 7, 8, 1, 5, 7, -1, -1, -1, -1];
const TRI_ROW_59: [i8; 16] = [11, 2, 1, 11, 1, 7, 7, 1, 5, -1, -1, -1, -1, -1, -1, -1];
const TRI_ROW_60: [i8; 16] = [9, 5, 8, 8, 5, 7, 10, 1, 3, 10, 3, 11, -1, -1, -1, -1];
const TRI_ROW_61: [i8; 16] = [5, 7, 0, 5, 0, 9, 7, 11, 0, 1, 0, 10, 11, 10, 0, -1];
const TRI_ROW_62: [i8; 16] = [11, 10, 0, 11, 0, 3, 10, 5, 0, 8, 0, 7, 5, 7, 0, -1];
const TRI_ROW_63: [i8; 16] = [11, 10, 5, 7, 11, 5, -1, -1, -1, -1, -1, -1, -1, -1, -1, -1];
const TRI_ROW_64: [i8; 16] = [10, 6, 5, -1, -1, -1, -1, -1, -1, -1, -1, -1, -1, -1, -1, -1];
const TRI_ROW_65: [i8; 16] = [0, 8, 3, 5, 10, 6, -1, -1, -1, -1, -1, -1, -1, -1, -1, -1];
const TRI_ROW_66: [i8; 16] = [9, 0, 1, 5, 10, 6, -1, -1, -1, -1, -1, -1, -1, -1, -1, -1];
const TRI_ROW_67: [i8; 16] = [1, 8, 3, 1, 9, 8, 5, 10, 6, -1, -1, -1, -1, -1, -1, -1];
const TRI_ROW_68: [i8; 16] = [1, 6, 5, 2, 6, 1, -1, -1, -1, -1, -1, -1, -1, -1, -1, -1];
const TRI_ROW_69: [i8; 16] = [1, 6, 5, 1, 2, 6, 3, 0, 8, -1, -1, -1, -1, -1, -1, -1];
const TRI_ROW_70: [i8; 16] = [9, 6, 5, 9, 0, 6, 0, 2, 6, -1, -1, -1, -1, -1, -1, -1];
const TRI_ROW_71: [i8; 16] = [5, 9, 8, 5, 8, 2, 5, 2, 6, 3, 2, 8, -1, -1, -1, -1];
const TRI_ROW_72: [i8; 16] = [2, 3, 11, 10, 6, 5, -1, -1, -1, -1, -1, -1, -1, -1, -1, -1];
const TRI_ROW_73: [i8; 16] = [11, 0, 8, 11, 2, 0, 10, 6, 5, -1, -1, -1, -1, -1, -1, -1];
const TRI_ROW_74: [i8; 16] = [0, 1, 9, 2, 3, 11, 5, 10, 6, -1, -1, -1, -1, -1, -1, -1];
const TRI_ROW_75: [i8; 16] = [5, 10, 6, 1, 9, 2, 9, 11, 2, 9, 8, 11, -1, -1, -1, -1];
const TRI_ROW_76: [i8; 16] = [6, 3, 11, 6, 5, 3, 5, 1, 3, -1, -1, -1, -1, -1, -1, -1];
const TRI_ROW_77: [i8; 16] = [0, 8, 11, 0, 11, 5, 0, 5, 1, 5, 11, 6, -1, -1, -1, -1];
const TRI_ROW_78: [i8; 16] = [3, 11, 6, 0, 3, 6, 0, 6, 5, 0, 5, 9, -1, -1, -1, -1];
const TRI_ROW_79: [i8; 16] = [6, 5, 9, 6, 9, 11, 11, 9, 8, -1, -1, -1, -1, -1, -1, -1];
const TRI_ROW_80: [i8; 16] = [5, 10, 6, 4, 7, 8, -1, -1, -1, -1, -1, -1, -1, -1, -1, -1];
const TRI_ROW_81: [i8; 16] = [4, 3, 0, 4, 7, 3, 6, 5, 10, -1, -1, -1, -1, -1, -1, -1];
const TRI_ROW_82: [i8; 16] = [1, 9, 0, 5, 10, 6, 8, 4, 7, -1, -1, -1, -1, -1, -1, -1];
const TRI_ROW_83: [i8; 16] = [10, 6, 5, 1, 9, 7, 1, 7, 3, 7, 9, 4, -1, -1, -1, -1];
const TRI_ROW_84: [i8; 16] = [6, 1, 2, 6, 5, 1, 4, 7, 8, -1, -1, -1, -1, -1, -1, -1];
const TRI_ROW_85: [i8; 16] = [1, 2, 5, 5, 2, 6, 3, 0, 4, 3, 4, 7, -1, -1, -1, -1];
const TRI_ROW_86: [i8; 16] = [8, 4, 7, 9, 0, 5, 0, 6, 5, 0, 2, 6, -1, -1, -1, -1];
const TRI_ROW_87: [i8; 16] = [7, 3, 9, 7, 9, 4, 3, 2, 9, 5, 9, 6, 2, 6, 9, -1];
const TRI_ROW_88: [i8; 16] = [3, 11, 2, 7, 8, 4, 10, 6, 5, -1, -1, -1, -1, -1, -1, -1];
const TRI_ROW_89: [i8; 16] = [5, 10, 6, 4, 7, 2, 4, 2, 0, 2, 7, 11, -1, -1, -1, -1];
const TRI_ROW_90: [i8; 16] = [0, 1, 9, 4, 7, 8, 2, 3, 11, 5, 10, 6, -1, -1, -1, -1];
const TRI_ROW_91: [i8; 16] = [9, 2, 1, 9, 11, 2, 9, 4, 11, 7, 11, 4, 5, 10, 6, -1];
const TRI_ROW_92: [i8; 16] = [8, 4, 7, 3, 11, 5, 3, 5, 1, 5, 11, 6, -1, -1, -1, -1];
const TRI_ROW_93: [i8; 16] = [5, 1, 11, 5, 11, 6, 1, 0, 11, 7, 11, 4, 0, 4, 11, -1];
const TRI_ROW_94: [i8; 16] = [0, 5, 9, 0, 6, 5, 0, 3, 6, 11, 6, 3, 8, 4, 7, -1];
const TRI_ROW_95: [i8; 16] = [6, 5, 9, 6, 9, 11, 4, 7, 9, 7, 11, 9, -1, -1, -1, -1];
const TRI_ROW_96: [i8; 16] = [10, 4, 9, 6, 4, 10, -1, -1, -1, -1, -1, -1, -1, -1, -1, -1];
const TRI_ROW_97: [i8; 16] = [4, 10, 6, 4, 9, 10, 0, 8, 3, -1, -1, -1, -1, -1, -1, -1];
const TRI_ROW_98: [i8; 16] = [10, 0, 1, 10, 6, 0, 6, 4, 0, -1, -1, -1, -1, -1, -1, -1];
const TRI_ROW_99: [i8; 16] = [8, 3, 1, 8, 1, 6, 8, 6, 4, 6, 1, 10, -1, -1, -1, -1];
const TRI_ROW_100: [i8; 16] = [1, 4, 9, 1, 2, 4, 2, 6, 4, -1, -1, -1, -1, -1, -1, -1];
const TRI_ROW_101: [i8; 16] = [3, 0, 8, 1, 2, 9, 2, 4, 9, 2, 6, 4, -1, -1, -1, -1];
const TRI_ROW_102: [i8; 16] = [0, 2, 4, 4, 2, 6, -1, -1, -1, -1, -1, -1, -1, -1, -1, -1];
const TRI_ROW_103: [i8; 16] = [8, 3, 2, 8, 2, 4, 4, 2, 6, -1, -1, -1, -1, -1, -1, -1];
const TRI_ROW_104: [i8; 16] = [10, 4, 9, 10, 6, 4, 11, 2, 3, -1, -1, -1, -1, -1, -1, -1];
const TRI_ROW_105: [i8; 16] = [0, 8, 2, 2, 8, 11, 4, 9, 10, 4, 10, 6, -1, -1, -1, -1];
const TRI_ROW_106: [i8; 16] = [3, 11, 2, 0, 1, 6, 0, 6, 4, 6, 1, 10, -1, -1, -1, -1];
const TRI_ROW_107: [i8; 16] = [6, 4, 1, 6, 1, 10, 4, 8, 1, 2, 1, 11, 8, 11, 1, -1];
const TRI_ROW_108: [i8; 16] = [9, 6, 4, 9, 3, 6, 9, 1, 3, 11, 6, 3, -1, -1, -1, -1];
const TRI_ROW_109: [i8; 16] = [8, 11, 1, 8, 1, 0, 11, 6, 1, 9, 1, 4, 6, 4, 1, -1];
const TRI_ROW_110: [i8; 16] = [3, 11, 6, 3, 6, 0, 0, 6, 4, -1, -1, -1, -1, -1, -1, -1];
const TRI_ROW_111: [i8; 16] = [6, 4, 8, 11, 6, 8, -1, -1, -1, -1, -1, -1, -1, -1, -1, -1];
const TRI_ROW_112: [i8; 16] = [7, 10, 6, 7, 8, 10, 8, 9, 10, -1, -1, -1, -1, -1, -1, -1];
const TRI_ROW_113: [i8; 16] = [0, 7, 3, 0, 10, 7, 0, 9, 10, 6, 7, 10, -1, -1, -1, -1];
const TRI_ROW_114: [i8; 16] = [10, 6, 7, 1, 10, 7, 1, 7, 8, 1, 8, 0, -1, -1, -1, -1];
const TRI_ROW_115: [i8; 16] = [10, 6, 7, 10, 7, 1, 1, 7, 3, -1, -1, -1, -1, -1, -1, -1];
const TRI_ROW_116: [i8; 16] = [1, 2, 6, 1, 6, 8, 1, 8, 9, 8, 6, 7, -1, -1, -1, -1];
const TRI_ROW_117: [i8; 16] = [2, 6, 9, 2, 9, 1, 6, 7, 9, 0, 9, 3, 7, 3, 9, -1];
const TRI_ROW_118: [i8; 16] = [7, 8, 0, 7, 0, 6, 6, 0, 2, -1, -1, -1, -1, -1, -1, -1];
const TRI_ROW_119: [i8; 16] = [7, 3, 2, 6, 7, 2, -1, -1, -1, -1, -1, -1, -1, -1, -1, -1];
const TRI_ROW_120: [i8; 16] = [2, 3, 11, 10, 6, 8, 10, 8, 9, 8, 6, 7, -1, -1, -1, -1];
const TRI_ROW_121: [i8; 16] = [2, 0, 7, 2, 7, 11, 0, 9, 7, 6, 7, 10, 9, 10, 7, -1];
const TRI_ROW_122: [i8; 16] = [1, 8, 0, 1, 7, 8, 1, 10, 7, 6, 7, 10, 2, 3, 11, -1];
const TRI_ROW_123: [i8; 16] = [11, 2, 1, 11, 1, 7, 10, 6, 1, 6, 7, 1, -1, -1, -1, -1];
const TRI_ROW_124: [i8; 16] = [8, 9, 6, 8, 6, 7, 9, 1, 6, 11, 6, 3, 1, 3, 6, -1];
const TRI_ROW_125: [i8; 16] = [0, 9, 1, 11, 6, 7, -1, -1, -1, -1, -1, -1, -1, -1, -1, -1];
const TRI_ROW_126: [i8; 16] = [7, 8, 0, 7, 0, 6, 3, 11, 0, 11, 6, 0, -1, -1, -1, -1];
const TRI_ROW_127: [i8; 16] = [7, 11, 6, -1, -1, -1, -1, -1, -1, -1, -1, -1, -1, -1, -1, -1];
const TRI_ROW_128: [i8; 16] = [7, 6, 11, -1, -1, -1, -1, -1, -1, -1, -1, -1, -1, -1, -1, -1];
const TRI_ROW_129: [i8; 16] = [3, 0, 8, 11, 7, 6, -1, -1, -1, -1, -1, -1, -1, -1, -1, -1];
const TRI_ROW_130: [i8; 16] = [0, 1, 9, 11, 7, 6, -1, -1, -1, -1, -1, -1, -1, -1, -1, -1];
const TRI_ROW_131: [i8; 16] = [8, 1, 9, 8, 3, 1, 11, 7, 6, -1, -1, -1, -1, -1, -1, -1];
const TRI_ROW_132: [i8; 16] = [10, 1, 2, 6, 11, 7, -1, -1, -1, -1, -1, -1, -1, -1, -1, -1];
const TRI_ROW_133: [i8; 16] = [1, 2, 10, 3, 0, 8, 6, 11, 7, -1, -1, -1, -1, -1, -1, -1];
const TRI_ROW_134: [i8; 16] = [2, 9, 0, 2, 10, 9, 6, 11, 7, -1, -1, -1, -1, -1, -1, -1];
const TRI_ROW_135: [i8; 16] = [6, 11, 7, 2, 10, 3, 10, 8, 3, 10, 9, 8, -1, -1, -1, -1];
const TRI_ROW_136: [i8; 16] = [7, 2, 3, 6, 2, 7, -1, -1, -1, -1, -1, -1, -1, -1, -1, -1];
const TRI_ROW_137: [i8; 16] = [7, 0, 8, 7, 6, 0, 6, 2, 0, -1, -1, -1, -1, -1, -1, -1];
const TRI_ROW_138: [i8; 16] = [2, 7, 6, 2, 3, 7, 0, 1, 9, -1, -1, -1, -1, -1, -1, -1];
const TRI_ROW_139: [i8; 16] = [1, 6, 2, 1, 8, 6, 1, 9, 8, 8, 7, 6, -1, -1, -1, -1];
const TRI_ROW_140: [i8; 16] = [10, 7, 6, 10, 1, 7, 1, 3, 7, -1, -1, -1, -1, -1, -1, -1];
const TRI_ROW_141: [i8; 16] = [10, 7, 6, 1, 7, 10, 1, 8, 7, 1, 0, 8, -1, -1, -1, -1];
const TRI_ROW_142: [i8; 16] = [0, 3, 7, 0, 7, 10, 0, 10, 9, 6, 10, 7, -1, -1, -1, -1];
const TRI_ROW_143: [i8; 16] = [7, 6, 10, 7, 10, 8, 8, 10, 9, -1, -1, -1, -1, -1, -1, -1];
const TRI_ROW_144: [i8; 16] = [6, 8, 4, 11, 8, 6, -1, -1, -1, -1, -1, -1, -1, -1, -1, -1];
const TRI_ROW_145: [i8; 16] = [3, 6, 11, 3, 0, 6, 0, 4, 6, -1, -1, -1, -1, -1, -1, -1];
const TRI_ROW_146: [i8; 16] = [8, 6, 11, 8, 4, 6, 9, 0, 1, -1, -1, -1, -1, -1, -1, -1];
const TRI_ROW_147: [i8; 16] = [9, 4, 6, 9, 6, 3, 9, 3, 1, 11, 3, 6, -1, -1, -1, -1];
const TRI_ROW_148: [i8; 16] = [6, 8, 4, 6, 11, 8, 2, 10, 1, -1, -1, -1, -1, -1, -1, -1];
const TRI_ROW_149: [i8; 16] = [1, 2, 10, 3, 0, 11, 0, 6, 11, 0, 4, 6, -1, -1, -1, -1];
const TRI_ROW_150: [i8; 16] = [4, 11, 8, 4, 6, 11, 0, 2, 9, 2, 10, 9, -1, -1, -1, -1];
const TRI_ROW_151: [i8; 16] = [10, 9, 3, 10, 3, 2, 9, 4, 3, 11, 3, 6, 4, 6, 3, -1];
const TRI_ROW_152: [i8; 16] = [8, 2, 3, 8, 4, 2, 4, 6, 2, -1, -1, -1, -1, -1, -1, -1];
const TRI_ROW_153: [i8; 16] = [0, 4, 2, 4, 6, 2, -1, -1, -1, -1, -1, -1, -1, -1, -1, -1];
const TRI_ROW_154: [i8; 16] = [1, 9, 0, 2, 3, 4, 2, 4, 6, 4, 3, 8, -1, -1, -1, -1];
const TRI_ROW_155: [i8; 16] = [1, 9, 4, 1, 4, 2, 2, 4, 6, -1, -1, -1, -1, -1, -1, -1];
const TRI_ROW_156: [i8; 16] = [8, 1, 3, 8, 6, 1, 8, 4, 6, 6, 10, 1, -1, -1, -1, -1];
const TRI_ROW_157: [i8; 16] = [10, 1, 0, 10, 0, 6, 6, 0, 4, -1, -1, -1, -1, -1, -1, -1];
const TRI_ROW_158: [i8; 16] = [4, 6, 3, 4, 3, 8, 6, 10, 3, 0, 3, 9, 10, 9, 3, -1];
const TRI_ROW_159: [i8; 16] = [10, 9, 4, 6, 10, 4, -1, -1, -1, -1, -1, -1, -1, -1, -1, -1];
const TRI_ROW_160: [i8; 16] = [4, 9, 5, 7, 6, 11, -1, -1, -1, -1, -1, -1, -1, -1, -1, -1];
const TRI_ROW_161: [i8; 16] = [0, 8, 3, 4, 9, 5, 11, 7, 6, -1, -1, -1, -1, -1, -1, -1];
const TRI_ROW_162: [i8; 16] = [5, 0, 1, 5, 4, 0, 7, 6, 11, -1, -1, -1, -1, -1, -1, -1];
const TRI_ROW_163: [i8; 16] = [11, 7, 6, 8, 3, 4, 3, 5, 4, 3, 1, 5, -1, -1, -1, -1];
const TRI_ROW_164: [i8; 16] = [9, 5, 4, 10, 1, 2, 7, 6, 11, -1, -1, -1, -1, -1, -1, -1];
const TRI_ROW_165: [i8; 16] = [6, 11, 7, 1, 2, 10, 0, 8, 3, 4, 9, 5, -1, -1, -1, -1];
const TRI_ROW_166: [i8; 16] = [7, 6, 11, 5, 4, 10, 4, 2, 10, 4, 0, 2, -1, -1, -1, -1];
const TRI_ROW_167: [i8; 16] = [3, 4, 8, 3, 5, 4, 3, 2, 5, 10, 5, 2, 11, 7, 6, -1];
const TRI_ROW_168: [i8; 16] = [7, 2, 3, 7, 6, 2, 5, 4, 9, -1, -1, -1, -1, -1, -1, -1];
const TRI_ROW_169: [i8; 16] = [9, 5, 4, 0, 8, 6, 0, 6, 2, 6, 8, 7, -1, -1, -1, -1];
const TRI_ROW_170: [i8; 16] = [3, 6, 2, 3, 7, 6, 1, 5, 0, 5, 4, 0, -1, -1, -1, -1];
const TRI_ROW_171: [i8; 16] = [6, 2, 8, 6, 8, 7, 2, 1, 8, 4, 8, 5, 1, 5, 8, -1];
const TRI_ROW_172: [i8; 16] = [9, 5, 4, 10, 1, 6, 1, 7, 6, 1, 3, 7, -1, -1, -1, -1];
const TRI_ROW_173: [i8; 16] = [1, 6, 10, 1, 7, 6, 1, 0, 7, 8, 7, 0, 9, 5, 4, -1];
const TRI_ROW_174: [i8; 16] = [4, 0, 10, 4, 10, 5, 0, 3, 10, 6, 10, 7, 3, 7, 10, -1];
const TRI_ROW_175: [i8; 16] = [7, 6, 10, 7, 10, 8, 5, 4, 10, 4, 8, 10, -1, -1, -1, -1];
const TRI_ROW_176: [i8; 16] = [6, 9, 5, 6, 11, 9, 11, 8, 9, -1, -1, -1, -1, -1, -1, -1];
const TRI_ROW_177: [i8; 16] = [3, 6, 11, 0, 6, 3, 0, 5, 6, 0, 9, 5, -1, -1, -1, -1];
const TRI_ROW_178: [i8; 16] = [0, 11, 8, 0, 5, 11, 0, 1, 5, 5, 6, 11, -1, -1, -1, -1];
const TRI_ROW_179: [i8; 16] = [6, 11, 3, 6, 3, 5, 5, 3, 1, -1, -1, -1, -1, -1, -1, -1];
const TRI_ROW_180: [i8; 16] = [1, 2, 10, 9, 5, 11, 9, 11, 8, 11, 5, 6, -1, -1, -1, -1];
const TRI_ROW_181: [i8; 16] = [0, 11, 3, 0, 6, 11, 0, 9, 6, 5, 6, 9, 1, 2, 10, -1];
const TRI_ROW_182: [i8; 16] = [11, 8, 5, 11, 5, 6, 8, 0, 5, 10, 5, 2, 0, 2, 5, -1];
const TRI_ROW_183: [i8; 16] = [6, 11, 3, 6, 3, 5, 2, 10, 3, 10, 5, 3, -1, -1, -1, -1];
const TRI_ROW_184: [i8; 16] = [5, 8, 9, 5, 2, 8, 5, 6, 2, 3, 8, 2, -1, -1, -1, -1];
const TRI_ROW_185: [i8; 16] = [9, 5, 6, 9, 6, 0, 0, 6, 2, -1, -1, -1, -1, -1, -1, -1];
const TRI_ROW_186: [i8; 16] = [1, 5, 8, 1, 8, 0, 5, 6, 8, 3, 8, 2, 6, 2, 8, -1];
const TRI_ROW_187: [i8; 16] = [1, 5, 6, 2, 1, 6, -1, -1, -1, -1, -1, -1, -1, -1, -1, -1];
const TRI_ROW_188: [i8; 16] = [1, 3, 6, 1, 6, 10, 3, 8, 6, 5, 6, 9, 8, 9, 6, -1];
const TRI_ROW_189: [i8; 16] = [10, 1, 0, 10, 0, 6, 9, 5, 0, 5, 6, 0, -1, -1, -1, -1];
const TRI_ROW_190: [i8; 16] = [0, 3, 8, 5, 6, 10, -1, -1, -1, -1, -1, -1, -1, -1, -1, -1];
const TRI_ROW_191: [i8; 16] = [10, 5, 6, -1, -1, -1, -1, -1, -1, -1, -1, -1, -1, -1, -1, -1];
const TRI_ROW_192: [i8; 16] = [11, 5, 10, 7, 5, 11, -1, -1, -1, -1, -1, -1, -1, -1, -1, -1];
const TRI_ROW_193: [i8; 16] = [11, 5, 10, 11, 7, 5, 8, 3, 0, -1, -1, -1, -1, -1, -1, -1];
const TRI_ROW_194: [i8; 16] = [5, 11, 7, 5, 10, 11, 1, 9, 0, -1, -1, -1, -1, -1, -1, -1];
const TRI_ROW_195: [i8; 16] = [10, 7, 5, 10, 11, 7, 9, 8, 1, 8, 3, 1, -1, -1, -1, -1];
const TRI_ROW_196: [i8; 16] = [11, 1, 2, 11, 7, 1, 7, 5, 1, -1, -1, -1, -1, -1, -1, -1];
const TRI_ROW_197: [i8; 16] = [0, 8, 3, 1, 2, 7, 1, 7, 5, 7, 2, 11, -1, -1, -1, -1];
const TRI_ROW_198: [i8; 16] = [9, 7, 5, 9, 2, 7, 9, 0, 2, 2, 11, 7, -1, -1, -1, -1];
const TRI_ROW_199: [i8; 16] = [7, 5, 2, 7, 2, 11, 5, 9, 2, 3, 2, 8, 9, 8, 2, -1];
const TRI_ROW_200: [i8; 16] = [2, 5, 10, 2, 3, 5, 3, 7, 5, -1, -1, -1, -1, -1, -1, -1];
const TRI_ROW_201: [i8; 16] = [8, 2, 0, 8, 5, 2, 8, 7, 5, 10, 2, 5, -1, -1, -1, -1];
const TRI_ROW_202: [i8; 16] = [9, 0, 1, 5, 10, 3, 5, 3, 7, 3, 10, 2, -1, -1, -1, -1];
const TRI_ROW_203: [i8; 16] = [9, 8, 2, 9, 2, 1, 8, 7, 2, 10, 2, 5, 7, 5, 2, -1];
const TRI_ROW_204: [i8; 16] = [1, 3, 5, 3, 7, 5, -1, -1, -1, -1, -1, -1, -1, -1, -1, -1];
const TRI_ROW_205: [i8; 16] = [0, 8, 7, 0, 7, 1, 1, 7, 5, -1, -1, -1, -1, -1, -1, -1];
const TRI_ROW_206: [i8; 16] = [9, 0, 3, 9, 3, 5, 5, 3, 7, -1, -1, -1, -1, -1, -1, -1];
const TRI_ROW_207: [i8; 16] = [9, 8, 7, 5, 9, 7, -1, -1, -1, -1, -1, -1, -1, -1, -1, -1];
const TRI_ROW_208: [i8; 16] = [5, 8, 4, 5, 10, 8, 10, 11, 8, -1, -1, -1, -1, -1, -1, -1];
const TRI_ROW_209: [i8; 16] = [5, 0, 4, 5, 11, 0, 5, 10, 11, 11, 3, 0, -1, -1, -1, -1];
const TRI_ROW_210: [i8; 16] = [0, 1, 9, 8, 4, 10, 8, 10, 11, 10, 4, 5, -1, -1, -1, -1];
const TRI_ROW_211: [i8; 16] = [10, 11, 4, 10, 4, 5, 11, 3, 4, 9, 4, 1, 3, 1, 4, -1];
const TRI_ROW_212: [i8; 16] = [2, 5, 1, 2, 8, 5, 2, 11, 8, 4, 5, 8, -1, -1, -1, -1];
const TRI_ROW_213: [i8; 16] = [0, 4, 11, 0, 11, 3, 4, 5, 11, 2, 11, 1, 5, 1, 11, -1];
const TRI_ROW_214: [i8; 16] = [0, 2, 5, 0, 5, 9, 2, 11, 5, 4, 5, 8, 11, 8, 5, -1];
const TRI_ROW_215: [i8; 16] = [9, 4, 5, 2, 11, 3, -1, -1, -1, -1, -1, -1, -1, -1, -1, -1];
const TRI_ROW_216: [i8; 16] = [2, 5, 10, 3, 5, 2, 3, 4, 5, 3, 8, 4, -1, -1, -1, -1];
const TRI_ROW_217: [i8; 16] = [5, 10, 2, 5, 2, 4, 4, 2, 0, -1, -1, -1, -1, -1, -1, -1];
const TRI_ROW_218: [i8; 16] = [3, 10, 2, 3, 5, 10, 3, 8, 5, 4, 5, 8, 0, 1, 9, -1];
const TRI_ROW_219: [i8; 16] = [5, 10, 2, 5, 2, 4, 1, 9, 2, 9, 4, 2, -1, -1, -1, -1];
const TRI_ROW_220: [i8; 16] = [8, 4, 5, 8, 5, 3, 3, 5, 1, -1, -1, -1, -1, -1, -1, -1];
const TRI_ROW_221: [i8; 16] = [0, 4, 5, 1, 0, 5, -1, -1, -1, -1, -1, -1, -1, -1, -1, -1];
const TRI_ROW_222: [i8; 16] = [8, 4, 5, 8, 5, 3, 9, 0, 5, 0, 3, 5, -1, -1, -1, -1];
const TRI_ROW_223: [i8; 16] = [9, 4, 5, -1, -1, -1, -1, -1, -1, -1, -1, -1, -1, -1, -1, -1];
const TRI_ROW_224: [i8; 16] = [4, 11, 7, 4, 9, 11, 9, 10, 11, -1, -1, -1, -1, -1, -1, -1];
const TRI_ROW_225: [i8; 16] = [0, 8, 3, 4, 9, 7, 9, 11, 7, 9, 10, 11, -1, -1, -1, -1];
const TRI_ROW_226: [i8; 16] = [1, 10, 11, 1, 11, 4, 1, 4, 0, 7, 4, 11, -1, -1, -1, -1];
const TRI_ROW_227: [i8; 16] = [3, 1, 4, 3, 4, 8, 1, 10, 4, 7, 4, 11, 10, 11, 4, -1];
const TRI_ROW_228: [i8; 16] = [4, 11, 7, 9, 11, 4, 9, 2, 11, 9, 1, 2, -1, -1, -1, -1];
const TRI_ROW_229: [i8; 16] = [9, 7, 4, 9, 11, 7, 9, 1, 11, 2, 11, 1, 0, 8, 3, -1];
const TRI_ROW_230: [i8; 16] = [11, 7, 4, 11, 4, 2, 2, 4, 0, -1, -1, -1, -1, -1, -1, -1];
const TRI_ROW_231: [i8; 16] = [11, 7, 4, 11, 4, 2, 8, 3, 4, 3, 2, 4, -1, -1, -1, -1];
const TRI_ROW_232: [i8; 16] = [2, 9, 10, 2, 7, 9, 2, 3, 7, 7, 4, 9, -1, -1, -1, -1];
const TRI_ROW_233: [i8; 16] = [9, 10, 7, 9, 7, 4, 10, 2, 7, 8, 7, 0, 2, 0, 7, -1];
const TRI_ROW_234: [i8; 16] = [3, 7, 10, 3, 10, 2, 7, 4, 10, 1, 10, 0, 4, 0, 10, -1];
const TRI_ROW_235: [i8; 16] = [1, 10, 2, 8, 7, 4, -1, -1, -1, -1, -1, -1, -1, -1, -1, -1];
const TRI_ROW_236: [i8; 16] = [4, 9, 1, 4, 1, 7, 7, 1, 3, -1, -1, -1, -1, -1, -1, -1];
const TRI_ROW_237: [i8; 16] = [4, 9, 1, 4, 1, 7, 0, 8, 1, 8, 7, 1, -1, -1, -1, -1];
const TRI_ROW_238: [i8; 16] = [4, 0, 3, 7, 4, 3, -1, -1, -1, -1, -1, -1, -1, -1, -1, -1];
const TRI_ROW_239: [i8; 16] = [4, 8, 7, -1, -1, -1, -1, -1, -1, -1, -1, -1, -1, -1, -1, -1];
const TRI_ROW_240: [i8; 16] = [9, 10, 8, 10, 11, 8, -1, -1, -1, -1, -1, -1, -1, -1, -1, -1];
const TRI_ROW_241: [i8; 16] = [3, 0, 9, 3, 9, 11, 11, 9, 10, -1, -1, -1, -1, -1, -1, -1];
const TRI_ROW_242: [i8; 16] = [0, 1, 10, 0, 10, 8, 8, 10, 11, -1, -1, -1, -1, -1, -1, -1];
const TRI_ROW_243: [i8; 16] = [3, 1, 10, 11, 3, 10, -1, -1, -1, -1, -1, -1, -1, -1, -1, -1];
const TRI_ROW_244: [i8; 16] = [1, 2, 11, 1, 11, 9, 9, 11, 8, -1, -1, -1, -1, -1, -1, -1];
const TRI_ROW_245: [i8; 16] = [3, 0, 9, 3, 9, 11, 1, 2, 9, 2, 11, 9, -1, -1, -1, -1];
const TRI_ROW_246: [i8; 16] = [0, 2, 11, 8, 0, 11, -1, -1, -1, -1, -1, -1, -1, -1, -1, -1];
const TRI_ROW_247: [i8; 16] = [3, 2, 11, -1, -1, -1, -1, -1, -1, -1, -1, -1, -1, -1, -1, -1];
const TRI_ROW_248: [i8; 16] = [2, 3, 8, 2, 8, 10, 10, 8, 9, -1, -1, -1, -1, -1, -1, -1];
const TRI_ROW_249: [i8; 16] = [9, 10, 2, 0, 9, 2, -1, -1, -1, -1, -1, -1, -1, -1, -1, -1];
const TRI_ROW_250: [i8; 16] = [2, 3, 8, 2, 8, 10, 0, 1, 8, 1, 10, 8, -1, -1, -1, -1];
const TRI_ROW_251: [i8; 16] = [1, 10, 2, -1, -1, -1, -1, -1, -1, -1, -1, -1, -1, -1, -1, -1];
const TRI_ROW_252: [i8; 16] = [1, 3, 8, 9, 1, 8, -1, -1, -1, -1, -1, -1, -1, -1, -1, -1];
const TRI_ROW_253: [i8; 16] = [0, 9, 1, -1, -1, -1, -1, -1, -1, -1, -1, -1, -1, -1, -1, -1];
const TRI_ROW_254: [i8; 16] = [0, 3, 8, -1, -1, -1, -1, -1, -1, -1, -1, -1, -1, -1, -1, -1];
const TRI_ROW_255: [i8; 16] = [-1, -1, -1, -1, -1, -1, -1, -1, -1, -1, -1, -1, -1, -1, -1, -1];

/// Row `code` of the triangulation table.
pub closed spec fn tri_row(code: u8) -> [i8; 16] {
    match code {
        0 => TRI_ROW_0,
        1 => TRI_ROW_1,
        2 => TRI_ROW_2,
        3 => TRI_ROW_3,
        4 => TRI_ROW_4,
        5 => TRI_ROW_5,
        6 => TRI_ROW_6,
        7 => TRI_ROW_7,
        8 => TRI_ROW_8,
        9 => TRI_ROW_9,
        10 => TRI_ROW_10,
        11 => TRI_ROW_11,
        12 => TRI_ROW_12,
        13 => TRI_ROW_13,
        14 => TRI_ROW_14,
        15 => TRI_ROW_15,
        16 => TRI_ROW_16,
        17 => TRI_ROW_17,
        18 => TRI_ROW_18,
        19 => TRI_ROW_19,
        20 => TRI_ROW_20,
        21 => TRI_ROW_21,
        22 => TRI_ROW_22,
        23 => TRI_ROW_23,
        24 => TRI_ROW_24,
        25 => TRI_ROW_25,
        26 => TRI_ROW_26,
        27 => TRI_ROW_27,
        28 => TRI_ROW_28,
        29 => TRI_ROW_29,
        30 => TRI_ROW_30,
        31 => TRI_ROW_31,
        32 => TRI_ROW_32,
        33 => TRI_ROW_33,
        34 => TRI_ROW_34,
        35 => TRI_ROW_35,
        36 => TRI_ROW_36,
        37 => TRI_ROW_37,
        38 => TRI_ROW_38,
        39 => TRI_ROW_39,
        40 => TRI_ROW_40,
        41 => TRI_ROW_41,
        42 => TRI_ROW_42,
        43 => TRI_ROW_43,
        44 => TRI_ROW_44,
        45 => TRI_ROW_45,
        46 => TRI_ROW_46,
        47 => TRI_ROW_47,
        48 => TRI_ROW_48,
        49 => TRI_ROW_49,
        50 => TRI_ROW_50,
        51 => TRI_ROW_51,
        52 => TRI_ROW_52,
        53 => TRI_ROW_53,
        54 => TRI_ROW_54,
        55 => TRI_ROW_55,
        56 => TRI_ROW_56,
        57 => TRI_ROW_57,
        58 => TRI_ROW_58,
        59 => TRI_ROW_59,
        60 => TRI_ROW_60,
        61 => TRI_ROW_61,
        62 => TRI_ROW_62,
        63 => TRI_ROW_63,
        64 => TRI_ROW_64,
        65 => TRI_ROW_65,
        66 => TRI_ROW_66,
        67 => TRI_ROW_67,
        68 => TRI_ROW_68,
        69 => TRI_ROW_69,
        70 => TRI_ROW_70,
        71 => TRI_ROW_71,
        72 => TRI_ROW_72,
        73 => TRI_ROW_73,
        74 => TRI_ROW_74,
        75 => TRI_ROW_75,
        76 => TRI_ROW_76,
        77 => TRI_ROW_77,
        78 => TRI_ROW_78,
        79 => TRI_ROW_79,
        80 => TRI_ROW_80,
        81 => TRI_ROW_81,
        82 => TRI_ROW_82,
        83 => TRI_ROW_83,
        84 => TRI_ROW_84,
        85 => TRI_ROW_85,
        86 => TRI_ROW_86,
        87 => TRI_ROW_87,
        88 => TRI_ROW_88,
        89 => TRI_ROW_89,
        90 => TRI_ROW_90,
        91 => TRI_ROW_91,
        92 => TRI_ROW_92,
        93 => TRI_ROW_93,
        94 => TRI_ROW_94,
        95 => TRI_ROW_95,
        96 => TRI_ROW_96,
        97 => TRI_ROW_97,
        98 => TRI_ROW_98,
        99 => TRI_ROW_99,
        100 => TRI_ROW_100,
        101 => TRI_ROW_101,
        102 => TRI_ROW_102,
        103 => TRI_ROW_103,
        104 => TRI_ROW_104,
        105 => TRI_ROW_105,
        106 => TRI_ROW_106,
        107 => TRI_ROW_107,
        108 => TRI_ROW_108,
        109 => TRI_ROW_109,
        110 => TRI_ROW_110,
        111 => TRI_ROW_111,
        112 => TRI_ROW_112,
        113 => TRI_ROW_113,
        114 => TRI_ROW_114,
        115 => TRI_ROW_115,
        116 => TRI_ROW_116,
        117 => TRI_ROW_117,
        118 => TRI_ROW_118,
        119 => TRI_ROW_119,
        120 => TRI_ROW_120,
        121 => TRI_ROW_121,
        122 => TRI_ROW_122,
        123 => TRI_ROW_123,
        124 => TRI_ROW_124,
        125 => TRI_ROW_125,
        126 => TRI_ROW_126,
        127 => TRI_ROW_127,
        128 => TRI_ROW_128,
        129 => TRI_ROW_129,
        130 => TRI_ROW_130,
        131 => TRI_ROW_131,
        132 => TRI_ROW_132,
        133 => TRI_ROW_133,
        134 => TRI_ROW_134,
        135 => TRI_ROW_135,
        136 => TRI_ROW_136,
        137 => TRI_ROW_137,
        138 => TRI_ROW_138,
        139 => TRI_ROW_139,
        140 => TRI_ROW_140,
        141 => TRI_ROW_141,
        142 => TRI_ROW_142,
        143 => TRI_ROW_143,
        144 => TRI_ROW_144,
        145 => TRI_ROW_145,
        146 => TRI_ROW_146,
        147 => TRI_ROW_147,
        148 => TRI_ROW_148,
        149 => TRI_ROW_149,
        150 => TRI_ROW_150,
        151 => TRI_ROW_151,
        152 => TRI_ROW_152,
        153 => TRI_ROW_153,
        154 => TRI_ROW_154,
        155 => TRI_ROW_155,
        156 => TRI_ROW_156,
        157 => TRI_ROW_157,
        158 => TRI_ROW_158,
        159 => TRI_ROW_159,
        160 => TRI_ROW_160,
        161 => TRI_ROW_161,
        162 => TRI_ROW_162,
        163 => TRI_ROW_163,
        164 => TRI_ROW_164,
        165 => TRI_ROW_165,
        166 => TRI_ROW_166,
        167 => TRI_ROW_167,
        168 => TRI_ROW_168,
        169 => TRI_ROW_169,
        170 => TRI_ROW_170,
        171 => TRI_ROW_171,
        172 => TRI_ROW_172,
        173 => TRI_ROW_173,
        174 => TRI_ROW_174,
        175 => TRI_ROW_175,
        176 => TRI_ROW_176,
        177 => TRI_ROW_177,
        178 => TRI_ROW_178,
        179 => TRI_ROW_179,
        180 => TRI_ROW_180,
        181 => TRI_ROW_181,
        182 => TRI_ROW_182,
        183 => TRI_ROW_183,
        184 => TRI_ROW_184,
        185 => TRI_ROW_185,
        186 => TRI_ROW_186,
        187 => TRI_ROW_187,
        188 => TRI_ROW_188,
        189 => TRI_ROW_189,
        190 => TRI_ROW_190,
        191 => TRI_ROW_191,
        192 => TRI_ROW_192,
        193 => TRI_ROW_193,
        194 => TRI_ROW_194,
        195 => TRI_ROW_195,
        196 => TRI_ROW_196,
        197 => TRI_ROW_197,
        198 => TRI_ROW_198,
        199 => TRI_ROW_199,
        200 => TRI_ROW_200,
        201 => TRI_ROW_201,
        202 => TRI_ROW_202,
        203 => TRI_ROW_203,
        204 => TRI_ROW_204,
        205 => TRI_ROW_205,
        206 => TRI_ROW_206,
        207 => TRI_ROW_207,
        208 => TRI_ROW_208,
        209 => TRI_ROW_209,
        210 => TRI_ROW_210,
        211 => TRI_ROW_211,
        212 => TRI_ROW_212,
        213 => TRI_ROW_213,
        214 => TRI_ROW_214,
        215 => TRI_ROW_215,
        216 => TRI_ROW_216,
        217 => TRI_ROW_217,
        218 => TRI_ROW_218,
        219 => TRI_ROW_219,
        220 => TRI_ROW_220,
        221 => TRI_ROW_221,
        222 => TRI_ROW_222,
        223 => TRI_ROW_223,
        224 => TRI_ROW_224,
        225 => TRI_ROW_225,
        226 => TRI_ROW_226,
        227 => TRI_ROW_227,
        228 => TRI_ROW_228,
        229 => TRI_ROW_229,
        230 => TRI_ROW_230,
        231 => TRI_ROW_231,
        232 => TRI_ROW_232,
        233 => TRI_ROW_233,
        234 => TRI_ROW_234,
        235 => TRI_ROW_235,
        236 => TRI_ROW_236,
        237 => TRI_ROW_237,
        238 => TRI_ROW_238,
        239 => TRI_ROW_239,
        240 => TRI_ROW_240,
        241 => TRI_ROW_241,
        242 => TRI_ROW_242,
        243 => TRI_ROW_243,
        244 => TRI_ROW_244,
        245 => TRI_ROW_245,
        246 => TRI_ROW_246,
        247 => TRI_ROW_247,
        248 => TRI_ROW_248,
        249 => TRI_ROW_249,
        250 => TRI_ROW_250,
        251 => TRI_ROW_251,
        252 => TRI_ROW_252,
        253 => TRI_ROW_253,
        254 => TRI_ROW_254,
        255 => TRI_ROW_255,
    }
}

/// Row `code` of the triangulation table.
pub fn tri_table_row(code: u8) -> (r: [i8; 16])
    ensures
        r == tri_row(code),
{
    match code {
        0 => TRI_ROW_0,
        1 => TRI_ROW_1,
        2 => TRI_ROW_2,
        3 => TRI_ROW_3,
        4 => TRI_ROW_4,
        5 => TRI_ROW_5,
        6 => TRI_ROW_6,
        7 => TRI_ROW_7,
        8 => TRI_ROW_8,
        9 => TRI_ROW_9,
        10 => TRI_ROW_10,
        11 => TRI_ROW_11,
        12 => TRI_ROW_12,
        13 => TRI_ROW_13,
        14 => TRI_ROW_14,
        15 => TRI_ROW_15,
        16 => TRI_ROW_16,
        17 => TRI_ROW_17,
        18 => TRI_ROW_18,
        19 => TRI_ROW_19,
        20 => TRI_ROW_20,
        21 => TRI_ROW_21,
        22 => TRI_ROW_22,
        23 => TRI_ROW_23,
        24 => TRI_ROW_24,
        25 => TRI_ROW_25,
        26 => TRI_ROW_26,
        27 => TRI_ROW_27,
        28 => TRI_ROW_28,
        29 => TRI_ROW_29,
        30 => TRI_ROW_30,
        31 => TRI_ROW_31,
        32 => TRI_ROW_32,
        33 => TRI_ROW_33,
        34 => TRI_ROW_34,
        35 => TRI_ROW_35,
        36 => TRI_ROW_36,
        37 => TRI_ROW_37,
        38 => TRI_ROW_38,
        39 => TRI_ROW_39,
        40 => TRI_ROW_40,
        41 => TRI_ROW_41,
        42 => TRI_ROW_42,
        43 => TRI_ROW_43,
        44 => TRI_ROW_44,
        45 => TRI_ROW_45,
        46 => TRI_ROW_46,
        47 => TRI_ROW_47,
        48 => TRI_ROW_48,
        49 => TRI_ROW_49,
        50 => TRI_ROW_50,
        51 => TRI_ROW_51,
        52 => TRI_ROW_52,
        53 => TRI_ROW_53,
        54 => TRI_ROW_54,
        55 => TRI_ROW_55,
        56 => TRI_ROW_56,
        57 => TRI_ROW_57,
        58 => TRI_ROW_58,
        59 => TRI_ROW_59,
        60 => TRI_ROW_60,
        61 => TRI_ROW_61,
        62 => TRI_ROW_62,
        63 => TRI_ROW_63,
        64 => TRI_ROW_64,
        65 => TRI_ROW_65,
        66 => TRI_ROW_66,
        67 => TRI_ROW_67,
        68 => TRI_ROW_68,
        69 => TRI_ROW_69,
        70 => TRI_ROW_70,
        71 => TRI_ROW_71,
        72 => TRI_ROW_72,
        73 => TRI_ROW_73,
        74 => TRI_ROW_74,
        75 => TRI_ROW_75,
        76 => TRI_ROW_76,
        77 => TRI_ROW_77,
        78 => TRI_ROW_78,
        79 => TRI_ROW_79,
        80 => TRI_ROW_80,
        81 => TRI_ROW_81,
        82 => TRI_ROW_82,
        83 => TRI_ROW_83,
        84 => TRI_ROW_84,
        85 => TRI_ROW_85,
        86 => TRI_ROW_86,
        87 => TRI_ROW_87,
        88 => TRI_ROW_88,
        89 => TRI_ROW_89,
        90 => TRI_ROW_90,
        91 => TRI_ROW_91,
        92 => TRI_ROW_92,
        93 => TRI_ROW_93,
        94 => TRI_ROW_94,
        95 => TRI_ROW_95,
        96 => TRI_ROW_96,
        97 => TRI_ROW_97,
        98 => TRI_ROW_98,
        99 => TRI_ROW_99,
        100 => TRI_ROW_100,
        101 => TRI_ROW_101,
        102 => TRI_ROW_102,
        103 => TRI_ROW_103,
        104 => TRI_ROW_104,
        105 => TRI_ROW_105,
        106 => TRI_ROW_106,
        107 => TRI_ROW_107,
        108 => TRI_ROW_108,
        109 => TRI_ROW_109,
        110 => TRI_ROW_110,
        111 => TRI_ROW_111,
        112 => TRI_ROW_112,
        113 => TRI_ROW_113,
        114 => TRI_ROW_114,
        115 => TRI_ROW_115,
        116 => TRI_ROW_116,
        117 => TRI_ROW_117,
        118 => TRI_ROW_118,
        119 => TRI_ROW_119,
        120 => TRI_ROW_120,
        121 => TRI_ROW_121,
        122 => TRI_ROW_122,
        123 => TRI_ROW_123,
        124 => TRI_ROW_124,
        125 => TRI_ROW_125,
        126 => TRI_ROW_126,
        127 => TRI_ROW_127,
        128 => TRI_ROW_128,
        129 => TRI_ROW_129,
        130 => TRI_ROW_130,
        131 => TRI_ROW_131,
        132 => TRI_ROW_132,
        133 => TRI_ROW_133,
        134 => TRI_ROW_134,
        135 => TRI_ROW_135,
        136 => TRI_ROW_136,
        137 => TRI_ROW_137,
        138 => TRI_ROW_138,
        139 => TRI_ROW_139,
        140 => TRI_ROW_140,
        141 => TRI_ROW_141,
        142 => TRI_ROW_142,
        143 => TRI_ROW_143,
        144 => TRI_ROW_144,
        145 => TRI_ROW_145,
        146 => TRI_ROW_146,
        147 => TRI_ROW_147,
        148 => TRI_ROW_148,
        149 => TRI_ROW_149,
        150 => TRI_ROW_150,
        151 => TRI_ROW_151,
        152 => TRI_ROW_152,
        153 => TRI_ROW_153,
        154 => TRI_ROW_154,
        155 => TRI_ROW_155,
        156 => TRI_ROW_156,
        157 => TRI_ROW_157,
        158 => TRI_ROW_158,
        159 => TRI_ROW_159,
        160 => TRI_ROW_160,
        161 => TRI_ROW_161,
        162 => TRI_ROW_162,
        163 => TRI_ROW_163,
        164 => TRI_ROW_164,
        165 => TRI_ROW_165,
        166 => TRI_ROW_166,
        167 => TRI_ROW_167,
        168 => TRI_ROW_168,
        169 => TRI_ROW_169,
        170 => TRI_ROW_170,
        171 => TRI_ROW_171,
        172 => TRI_ROW_172,
        173 => TRI_ROW_173,
        174 => TRI_ROW_174,
        175 => TRI_ROW_175,
        176 => TRI_ROW_176,
        177 => TRI_ROW_177,
        178 => TRI_ROW_178,
        179 => TRI_ROW_179,
        180 => TRI_ROW_180,
        181 => TRI_ROW_181,
        182 => TRI_ROW_182,
        183 => TRI_ROW_183,
        184 => TRI_ROW_184,
        185 => TRI_ROW_185,
        186 => TRI_ROW_186,
        187 => TRI_ROW_187,
        188 => TRI_ROW_188,
        189 => TRI_ROW_189,
        190 => TRI_ROW_190,
        191 => TRI_ROW_191,
        192 => TRI_ROW_192,
        193 => TRI_ROW_193,
        194 => TRI_ROW_194,
        195 => TRI_ROW_195,
        196 => TRI_ROW_196,
        197 => TRI_ROW_197,
        198 => TRI_ROW_198,
        199 => TRI_ROW_199,
        200 => TRI_ROW_200,
        201 => TRI_ROW_201,
        202 => TRI_ROW_202,
        203 => TRI_ROW_203,
        204 => TRI_ROW_204,
        205 => TRI_ROW_205,
        206 => TRI_ROW_206,
        207 => TRI_ROW_207,
        208 => TRI_ROW_208,
        209 => TRI_ROW_209,
        210 => TRI_ROW_210,
        211 => TRI_ROW_211,
        212 => TRI_ROW_212,
        213 => TRI_ROW_213,
        214 => TRI_ROW_214,
        215 => TRI_ROW_215,
        216 => TRI_ROW_216,
        217 => TRI_ROW_217,
        218 => TRI_ROW_218,
        219 => TRI_ROW_219,
        220 => TRI_ROW_220,
        221 => TRI_ROW_221,
        222 => TRI_ROW_222,
        223 => TRI_ROW_223,
        224 => TRI_ROW_224,
        225 => TRI_ROW_225,
        226 => TRI_ROW_226,
        227 => TRI_ROW_227,
        228 => TRI_ROW_228,
        229 => TRI_ROW_229,
        230 => TRI_ROW_230,
        231 => TRI_ROW_231,
        232 => TRI_ROW_232,
        233 => TRI_ROW_233,
        234 => TRI_ROW_234,
        235 => TRI_ROW_235,
        236 => TRI_ROW_236,
        237 => TRI_ROW_237,
        238 => TRI_ROW_238,
        239 => TRI_ROW_239,
        240 => TRI_ROW_240,
        241 => TRI_ROW_241,
        242 => TRI_ROW_242,
        243 => TRI_ROW_243,
        244 => TRI_ROW_244,
        245 => TRI_ROW_245,
        246 => TRI_ROW_246,
        247 => TRI_ROW_247,
        248 => TRI_ROW_248,
        249 => TRI_ROW_249,
        250 => TRI_ROW_250,
        251 => TRI_ROW_251,
        252 => TRI_ROW_252,
        253 => TRI_ROW_253,
        254 => TRI_ROW_254,
        255 => TRI_ROW_255,
    }
}

/// The corner at which edge `e` starts, on bytes.
pub open spec fn start_corner_bits(e: i8) -> u8 {
    if e < 8i8 {
        e as u8
    } else {
        (e - 8i8) as u8
    }
}

/// The corner at which edge `e` ends, on bytes.
pub open spec fn end_corner_bits(e: i8) -> u8 {
    if e == 3i8 {
        0u8
    } else if e == 7i8 {
        4u8
    } else if e < 8i8 {
        (e + 1i8) as u8
    } else {
        (e - 4i8) as u8
    }
}

/// Whether `e` names one of the twelve edges of a cube and its two corners
/// differ in the corner code `code`.
pub open spec fn edge_crosses_bits(code: u8, e: i8) -> bool {
    &&& 0i8 <= e
    &&& e < 12i8
    &&& ((code >> start_corner_bits(e)) & 1u8) != ((code >> end_corner_bits(e)) & 1u8)
}

/// Whether the triangle on edges `a`, `b`, `c` is cut by a cube with corner
/// code `code`.
pub open spec fn triangle_bits(code: u8, a: i8, b: i8, c: i8) -> bool {
    edge_crosses_bits(code, a) && edge_crosses_bits(code, b) && edge_crosses_bits(code, c)
}

/// Whether the sixteen entries, read three at a time until one is `-1`,
/// name only edges that the corner code `code` crosses, and hold that `-1`.
#[verifier::opaque]
pub open spec fn row_entries_checked(
    a0: i8,
    a1: i8,
    a2: i8,
    a3: i8,
    a4: i8,
    a5: i8,
    a6: i8,
    a7: i8,
    a8: i8,
    a9: i8,
    a10: i8,
    a11: i8,
    a12: i8,
    a13: i8,
    a14: i8,
    a15: i8,
    code: u8,
) -> bool {
    a0 == -1i8 || (triangle_bits(code, a0, a1, a2) && (a3 == -1i8 || (triangle_bits(
        code,
        a3,
        a4,
        a5,
    ) && (a6 == -1i8 || (triangle_bits(code, a6, a7, a8) && (a9 == -1i8 || (triangle_bits(
        code,
        a9,
        a10,
        a11,
    ) && (a12 == -1i8 || (triangle_bits(code, a12, a13, a14) && a15 == -1i8)))))))))
}

/// Whether `row`, read three entries at a time until one is `-1`, names
/// only edges that the corner code `code` crosses, and holds that `-1`.
pub open spec fn row_checked(row: [i8; 16], code: u8) -> bool {
    row_entries_checked(
        row[0],
        row[1],
        row[2],
        row[3],
        row[4],
        row[5],
        row[6],
        row[7],
        row[8],
        row[9],
        row[10],
        row[11],
        row[12],
        row[13],
        row[14],
        row[15],
        code,
    )
}

/// Whether edge `e` is among the entries of the triangles that the sixteen
/// entries hold, read three at a time until one is `-1`.
pub open spec fn edge_used_bits(
    a0: i8,
    a1: i8,
    a2: i8,
    a3: i8,
    a4: i8,
    a5: i8,
    a6: i8,
    a7: i8,
    a8: i8,
    a9: i8,
    a10: i8,
    a11: i8,
    a12: i8,
    a13: i8,
    a14: i8,
    a15: i8,
    e: i8,
) -> bool {
    ||| (a0 != -1i8 && (a0 == e || a1 == e || a2 == e))
    ||| (a0 != -1i8 && a3 != -1i8 && (a3 == e || a4 == e || a5 == e))
    ||| (a0 != -1i8 && a3 != -1i8 && a6 != -1i8 && (a6 == e || a7 == e || a8 == e))
    ||| (a0 != -1i8 && a3 != -1i8 && a6 != -1i8 && a9 != -1i8 && (a9 == e || a10 == e || a11
        == e))
    ||| (a0 != -1i8 && a3 != -1i8 && a6 != -1i8 && a9 != -1i8 && a12 != -1i8 && (a12 == e || a13
        == e || a14 == e))
}

/// Whether every edge that the corner code `code` crosses is named by one
/// of the triangles that the sixteen entries hold.
#[verifier::opaque]
pub open spec fn row_entries_cover(
    a0: i8,
    a1: i8,
    a2: i8,
    a3: i8,
    a4: i8,
    a5: i8,
    a6: i8,
    a7: i8,
    a8: i8,
    a9: i8,
    a10: i8,
    a11: i8,
    a12: i8,
    a13: i8,
    a14: i8,
    a15: i8,
    code: u8,
) -> bool {
    &&& edge_crosses_bits(code, 0i8) ==> edge_used_bits(a0, a1, a2, a3, a4, a5, a6, a7, a8, a9, a10, a11, a12, a13, a14, a15, 0i8)
    &&& edge_crosses_bits(code, 1i8) ==> edge_used_bits(a0, a1, a2, a3, a4, a5, a6, a7, a8, a9, a10, a11, a12, a13, a14, a15, 1i8)
    &&& edge_crosses_bits(code, 2i8) ==> edge_used_bits(a0, a1, a2, a3, a4, a5, a6, a7, a8, a9, a10, a11, a12, a13, a14, a15, 2i8)
    &&& edge_crosses_bits(code, 3i8) ==> edge_used_bits(a0, a1, a2, a3, a4, a5, a6, a7, a8, a9, a10, a11, a12, a13, a14, a15, 3i8)
    &&& edge_crosses_bits(code, 4i8) ==> edge_used_bits(a0, a1, a2, a3, a4, a5, a6, a7, a8, a9, a10, a11, a12, a13, a14, a15, 4i8)
    &&& edge_crosses_bits(code, 5i8) ==> edge_used_bits(a0, a1, a2, a3, a4, a5, a6, a7, a8, a9, a10, a11, a12, a13, a14, a15, 5i8)
    &&& edge_crosses_bits(code, 6i8) ==> edge_used_bits(a0, a1, a2, a3, a4, a5, a6, a7, a8, a9, a10, a11, a12, a13, a14, a15, 6i8)
    &&& edge_crosses_bits(code, 7i8) ==> edge_used_bits(a0, a1, a2, a3, a4, a5, a6, a7, a8, a9, a10, a11, a12, a13, a14, a15, 7i8)
    &&& edge_crosses_bits(code, 8i8) ==> edge_used_bits(a0, a1, a2, a3, a4, a5, a6, a7, a8, a9, a10, a11, a12, a13, a14, a15, 8i8)
    &&& edge_crosses_bits(code, 9i8) ==> edge_used_bits(a0, a1, a2, a3, a4, a5, a6, a7, a8, a9, a10, a11, a12, a13, a14, a15, 9i8)
    &&& edge_crosses_bits(code, 10i8) ==> edge_used_bits(a0, a1, a2, a3, a4, a5, a6, a7, a8, a9, a10, a11, a12, a13, a14, a15, 10i8)
    &&& edge_crosses_bits(code, 11i8) ==> edge_used_bits(a0, a1, a2, a3, a4, a5, a6, a7, a8, a9, a10, a11, a12, a13, a14, a15, 11i8)
}

/// Whether every edge that the corner code `code` crosses is named by one
/// of the triangles of `row`, read three entries at a time until one is
/// `-1`.
pub open spec fn row_covers(row: [i8; 16], code: u8) -> bool {
    row_entries_cover(
        row[0],
        row[1],
        row[2],
        row[3],
        row[4],
        row[5],
        row[6],
        row[7],
        row[8],
        row[9],
        row[10],
        row[11],
        row[12],
        row[13],
        row[14],
        row[15],
        code,
    )
}

/// Coordinate x of corner `v` of the unit cube.
#[verifier::opaque]
pub open spec fn corner_x(v: u8) -> i16 {
    if v == 1u8 || v == 2u8 || v == 5u8 || v == 6u8 {
        1i16
    } else {
        0i16
    }
}

/// Coordinate y of corner `v` of the unit cube.
#[verifier::opaque]
pub open spec fn corner_y(v: u8) -> i16 {
    if v == 2u8 || v == 3u8 || v == 6u8 || v == 7u8 {
        1i16
    } else {
        0i16
    }
}

/// Coordinate z of corner `v` of the unit cube.
#[verifier::opaque]
pub open spec fn corner_z(v: u8) -> i16 {
    if v >= 4u8 {
        1i16
    } else {
        0i16
    }
}

/// Twice the coordinate x of the midpoint of edge `e` of the unit cube.
#[verifier::opaque]
pub open spec fn mid_x(e: i8) -> int {
    corner_x(start_corner_bits(e)) + corner_x(end_corner_bits(e))
}

/// Twice the coordinate y of the midpoint of edge `e` of the unit cube.
#[verifier::opaque]
pub open spec fn mid_y(e: i8) -> int {
    corner_y(start_corner_bits(e)) + corner_y(end_corner_bits(e))
}

/// Twice the coordinate z of the midpoint of edge `e` of the unit cube.
#[verifier::opaque]
pub open spec fn mid_z(e: i8) -> int {
    corner_z(start_corner_bits(e)) + corner_z(end_corner_bits(e))
}

/// The corner of edge `e` that is set in the corner code `code` (its end
/// corner when its start corner is not set).
#[verifier::opaque]
pub open spec fn set_corner_bits(code: u8, e: i8) -> u8 {
    if (code >> start_corner_bits(e)) & 1u8 == 1u8 {
        start_corner_bits(e)
    } else {
        end_corner_bits(e)
    }
}

/// The triple product `(u × w) · d`: positive when `d` points to the side
/// of the plane spanned by `u` and `w` that their right-handed normal
/// points to.
#[verifier::opaque]
pub open spec fn triple_product(
    ux: int,
    uy: int,
    uz: int,
    wx: int,
    wy: int,
    wz: int,
    dx: int,
    dy: int,
    dz: int,
) -> int {
    (uy * wz - uz * wy) * dx + (uz * wx - ux * wz) * dy + (ux * wy - uy * wx) * dz
}

/// Whether the triangle on edges `a`, `b`, `c` of the unit cube, taken in
/// that order, faces the set corners of the code `code`: its right-handed
/// normal points the way of the sum of the vectors from each edge's
/// midpoint to its set corner (all lengths doubled).
#[verifier::opaque]
pub open spec fn triangle_faces_set_bits(code: u8, a: i8, b: i8, c: i8) -> bool {
    triple_product(
        mid_x(b) - mid_x(a),
        mid_y(b) - mid_y(a),
        mid_z(b) - mid_z(a),
        mid_x(c) - mid_x(a),
        mid_y(c) - mid_y(a),
        mid_z(c) - mid_z(a),
        2 * corner_x(set_corner_bits(code, a)) - mid_x(a) + 2 * corner_x(set_corner_bits(code, b))
            - mid_x(b) + 2 * corner_x(set_corner_bits(code, c)) - mid_x(c),
        2 * corner_y(set_corner_bits(code, a)) - mid_y(a) + 2 * corner_y(set_corner_bits(code, b))
            - mid_y(b) + 2 * corner_y(set_corner_bits(code, c)) - mid_y(c),
        2 * corner_z(set_corner_bits(code, a)) - mid_z(a) + 2 * corner_z(set_corner_bits(code, b))
            - mid_z(b) + 2 * corner_z(set_corner_bits(code, c)) - mid_z(c),
    ) > 0
}

/// Whether every triangle that the sixteen entries hold, read three at a
/// time until one is `-1`, faces the set corners of the code `code`.
#[verifier::opaque]
pub open spec fn row_entries_oriented(
    a0: i8,
    a1: i8,
    a2: i8,
    a3: i8,
    a4: i8,
    a5: i8,
    a6: i8,
    a7: i8,
    a8: i8,
    a9: i8,
    a10: i8,
    a11: i8,
    a12: i8,
    a13: i8,
    a14: i8,
    a15: i8,
    code: u8,
) -> bool {
    a0 == -1i8 || (triangle_faces_set_bits(code, a0, a1, a2) && (a3 == -1i8 || (
    triangle_faces_set_bits(code, a3, a4, a5) && (a6 == -1i8 || (triangle_faces_set_bits(
        code,
        a6,
        a7,
        a8,
    ) && (a9 == -1i8 || (triangle_faces_set_bits(code, a9, a10, a11) && (a12 == -1i8
        || triangle_faces_set_bits(code, a12, a13, a14)))))))))
}

/// Whether every triangle of `row`, read three entries at a time until one
/// is `-1`, faces the set corners of the code `code`.
pub open spec fn row_oriented(row: [i8; 16], code: u8) -> bool {
    row_entries_oriented(
        row[0],
        row[1],
        row[2],
        row[3],
        row[4],
        row[5],
        row[6],
        row[7],
        row[8],
        row[9],
        row[10],
        row[11],
        row[12],
        row[13],
        row[14],
        row[15],
        code,
    )
}

proof fn lemma_rows_checked_0()
    ensures
        row_checked(TRI_ROW_0, 0u8) && row_covers(TRI_ROW_0, 0u8) && row_oriented(TRI_ROW_0, 0u8),
        row_checked(TRI_ROW_1, 1u8) && row_covers(TRI_ROW_1, 1u8) && row_oriented(TRI_ROW_1, 1u8),
        row_checked(TRI_ROW_2, 2u8) && row_covers(TRI_ROW_2, 2u8) && row_oriented(TRI_ROW_2, 2u8),
        row_checked(TRI_ROW_3, 3u8) && row_covers(TRI_ROW_3, 3u8) && row_oriented(TRI_ROW_3, 3u8),
        row_checked(TRI_ROW_4, 4u8) && row_covers(TRI_ROW_4, 4u8) && row_oriented(TRI_ROW_4, 4u8),
        row_checked(TRI_ROW_5, 5u8) && row_covers(TRI_ROW_5, 5u8) && row_oriented(TRI_ROW_5, 5u8),
        row_checked(TRI_ROW_6, 6u8) && row_covers(TRI_ROW_6, 6u8) && row_oriented(TRI_ROW_6, 6u8),
        row_checked(TRI_ROW_7, 7u8) && row_covers(TRI_ROW_7, 7u8) && row_oriented(TRI_ROW_7, 7u8),
        row_checked(TRI_ROW_8, 8u8) && row_covers(TRI_ROW_8, 8u8) && row_oriented(TRI_ROW_8, 8u8),
        row_checked(TRI_ROW_9, 9u8) && row_covers(TRI_ROW_9, 9u8) && row_oriented(TRI_ROW_9, 9u8),
        row_checked(TRI_ROW_10, 10u8) && row_covers(TRI_ROW_10, 10u8) && row_oriented(TRI_ROW_10, 10u8),
        row_checked(TRI_ROW_11, 11u8) && row_covers(TRI_ROW_11, 11u8) && row_oriented(TRI_ROW_11, 11u8),
        row_checked(TRI_ROW_12, 12u8) && row_covers(TRI_ROW_12, 12u8) && row_oriented(TRI_ROW_12, 12u8),
        row_checked(TRI_ROW_13, 13u8) && row_covers(TRI_ROW_13, 13u8) && row_oriented(TRI_ROW_13, 13u8),
        row_checked(TRI_ROW_14, 14u8) && row_covers(TRI_ROW_14, 14u8) && row_oriented(TRI_ROW_14, 14u8),
        row_checked(TRI_ROW_15, 15u8) && row_covers(TRI_ROW_15, 15u8) && row_oriented(TRI_ROW_15, 15u8),
{
    assert(
        row_entries_checked(-1i8, -1i8, -1i8, -1i8, -1i8, -1i8, -1i8, -1i8, -1i8, -1i8, -1i8, -1i8, -1i8, -1i8, -1i8, -1i8, 0u8) && row_entries_cover(-1i8, -1i8, -1i8, -1i8, -1i8, -1i8, -1i8, -1i8, -1i8, -1i8, -1i8, -1i8, -1i8, -1i8, -1i8, -1i8, 0u8) && row_entries_oriented(-1i8, -1i8, -1i8, -1i8, -1i8, -1i8, -1i8, -1i8, -1i8, -1i8, -1i8, -1i8, -1i8, -1i8, -1i8, -1i8, 0u8) &&
        row_entries_checked(0i8, 8i8, 3i8, -1i8, -1i8, -1i8, -1i8, -1i8, -1i8, -1i8, -1i8, -1i8, -1i8, -1i8, -1i8, -1i8, 1u8) && row_entries_cover(0i8, 8i8, 3i8, -1i8, -1i8, -1i8, -1i8, -1i8, -1i8, -1i8, -1i8, -1i8, -1i8, -1i8, -1i8, -1i8, 1u8) && row_entries_oriented(0i8, 8i8, 3i8, -1i8, -1i8, -1i8, -1i8, -1i8, -1i8, -1i8, -1i8, -1i8, -1i8, -1i8, -1i8, -1i8, 1u8) &&
        row_entries_checked(0i8, 1i8, 9i8, -1i8, -1i8, -1i8, -1i8, -1i8, -1i8, -1i8, -1i8, -1i8, -1i8, -1i8, -1i8, -1i8, 2u8) && row_entries_cover(0i8, 1i8, 9i8, -1i8, -1i8, -1i8, -1i8, -1i8, -1i8, -1i8, -1i8, -1i8, -1i8, -1i8, -1i8, -1i8, 2u8) && row_entries_oriented(0i8, 1i8, 9i8, -1i8, -1i8, -1i8, -1i8, -1i8, -1i8, -1i8, -1i8, -1i8, -1i8, -1i8, -1i8, -1i8, 2u8) &&
        row_entries_checked(1i8, 8i8, 3i8, 9i8, 8i8, 1i8, -1i8, -1i8, -1i8, -1i8, -1i8, -1i8, -1i8, -1i8, -1i8, -1i8, 3u8) && row_entries_cover(1i8, 8i8, 3i8, 9i8, 8i8, 1i8, -1i8, -1i8, -1i8, -1i8, -1i8, -1i8, -1i8, -1i8, -1i8, -1i8, 3u8) && row_entries_oriented(1i8, 8i8, 3i8, 9i8, 8i8, 1i8, -1i8, -1i8, -1i8, -1i8, -1i8, -1i8, -1i8, -1i8, -1i8, -1i8, 3u8) &&
        row_entries_checked(1i8, 2i8, 10i8, -1i8, -1i8, -1i8, -1i8, -1i8, -1i8, -1i8, -1i8, -1i8, -1i8, -1i8, -1i8, -1i8, 4u8) && row_entries_cover(1i8, 2i8, 10i8, -1i8, -1i8, -1i8, -1i8, -1i8, -1i8, -1i8, -1i8, -1i8, -1i8, -1i8, -1i8, -1i8, 4u8) && row_entries_oriented(1i8, 2i8, 10i8, -1i8, -1i8, -1i8, -1i8, -1i8, -1i8, -1i8, -1i8, -1i8, -1i8, -1i8, -1i8, -1i8, 4u8) &&
        row_entries_checked(0i8, 8i8, 3i8, 1i8, 2i8, 10i8, -1i8, -1i8, -1i8, -1i8, -1i8, -1i8, -1i8, -1i8, -1i8, -1i8, 5u8) && row_entries_cover(0i8, 8i8, 3i8, 1i8, 2i8, 10i8, -1i8, -1i8, -1i8, -1i8, -1i8, -1i8, -1i8, -1i8, -1i8, -1i8, 5u8) && row_entries_oriented(0i8, 8i8, 3i8, 1i8, 2i8, 10i8, -1i8, -1i8, -1i8, -1i8, -1i8, -1i8, -1i8, -1i8, -1i8, -1i8, 5u8) &&
        row_entries_checked(9i8, 2i8, 10i8, 0i8, 2i8, 9i8, -1i8, -1i8, -1i8, -1i8, -1i8, -1i8, -1i8, -1i8, -1i8, -1i8, 6u8) && row_entries_cover(9i8, 2i8, 10i8, 0i8, 2i8, 9i8, -1i8, -1i8, -1i8, -1i8, -1i8, -1i8, -1i8, -1i8, -1i8, -1i8, 6u8) && row_entries_oriented(9i8, 2i8, 10i8, 0i8, 2i8, 9i8, -1i8, -1i8, -1i8, -1i8, -1i8, -1i8, -1i8, -1i8, -1i8, -1i8, 6u8) &&
        row_entries_checked(2i8, 8i8, 3i8, 2i8, 10i8, 8i8, 10i8, 9i8, 8i8, -1i8, -1i8, -1i8, -1i8, -1i8, -1i8, -1i8, 7u8) && row_entries_cover(2i8, 8i8, 3i8, 2i8, 10i8, 8i8, 10i8, 9i8, 8i8, -1i8, -1i8, -1i8, -1i8, -1i8, -1i8, -1i8, 7u8) && row_entries_oriented(2i8, 8i8, 3i8, 2i8, 10i8, 8i8, 10i8, 9i8, 8i8, -1i8, -1i8, -1i8, -1i8, -1i8, -1i8, -1i8, 7u8) &&
        row_entries_checked(3i8, 11i8, 2i8, -1i8, -1i8, -1i8, -1i8, -1i8, -1i8, -1i8, -1i8, -1i8, -1i8, -1i8, -1i8, -1i8, 8u8) && row_entries_cover(3i8, 11i8, 2i8, -1i8, -1i8, -1i8, -1i8, -1i8, -1i8, -1i8, -1i8, -1i8, -1i8, -1i8, -1i8, -1i8, 8u8) && row_entries_oriented(3i8, 11i8, 2i8, -1i8, -1i8, -1i8, -1i8, -1i8, -1i8, -1i8, -1i8, -1i8, -1i8, -1i8, -1i8, -1i8, 8u8) &&
        row_entries_checked(0i8, 11i8, 2i8, 8i8, 11i8, 0i8, -1i8, -1i8, -1i8, -1i8, -1i8, -1i8, -1i8, -1i8, -1i8, -1i8, 9u8) && row_entries_cover(0i8, 11i8, 2i8, 8i8, 11i8, 0i8, -1i8, -1i8, -1i8, -1i8, -1i8, -1i8, -1i8, -1i8, -1i8, -1i8, 9u8) && row_entries_oriented(0i8, 11i8, 2i8, 8i8, 11i8, 0i8, -1i8, -1i8, -1i8, -1i8, -1i8, -1i8, -1i8, -1i8, -1i8, -1i8, 9u8) &&
        row_entries_checked(1i8, 9i8, 0i8, 2i8, 3i8, 11i8, -1i8, -1i8, -1i8, -1i8, -1i8, -1i8, -1i8, -1i8, -1i8, -1i8, 10u8) && row_entries_cover(1i8, 9i8, 0i8, 2i8, 3i8, 11i8, -1i8, -1i8, -1i8, -1i8, -1i8, -1i8, -1i8, -1i8, -1i8, -1i8, 10u8) && row_entries_oriented(1i8, 9i8, 0i8, 2i8, 3i8, 11i8, -1i8, -1i8, -1i8, -1i8, -1i8, -1i8, -1i8, -1i8, -1i8, -1i8, 10u8) &&
        row_entries_checked(1i8, 11i8, 2i8, 1i8, 9i8, 11i8, 9i8, 8i8, 11i8, -1i8, -1i8, -1i8, -1i8, -1i8, -1i8, -1i8, 11u8) && row_entries_cover(1i8, 11i8, 2i8, 1i8, 9i8, 11i8, 9i8, 8i8, 11i8, -1i8, -1i8, -1i8, -1i8, -1i8, -1i8, -1i8, 11u8) && row_entries_oriented(1i8, 11i8, 2i8, 1i8, 9i8, 11i8, 9i8, 8i8, 11i8, -1i8, -1i8, -1i8, -1i8, -1i8, -1i8, -1i8, 11u8) &&
        row_entries_checked(3i8, 10i8, 1i8, 11i8, 10i8, 3i8, -1i8, -1i8, -1i8, -1i8, -1i8, -1i8, -1i8, -1i8, -1i8, -1i8, 12u8) && row_entries_cover(3i8, 10i8, 1i8, 11i8, 10i8, 3i8, -1i8, -1i8, -1i8, -1i8, -1i8, -1i8, -1i8, -1i8, -1i8, -1i8, 12u8) && row_entries_oriented(3i8, 10i8, 1i8, 11i8, 10i8, 3i8, -1i8, -1i8, -1i8, -1i8, -1i8, -1i8, -1i8, -1i8, -1i8, -1i8, 12u8) &&
        row_entries_checked(0i8, 10i8, 1i8, 0i8, 8i8, 10i8, 8i8, 11i8, 10i8, -1i8, -1i8, -1i8, -1i8, -1i8, -1i8, -1i8, 13u8) && row_entries_cover(0i8, 10i8, 1i8, 0i8, 8i8, 10i8, 8i8, 11i8, 10i8, -1i8, -1i8, -1i8, -1i8, -1i8, -1i8, -1i8, 13u8) && row_entries_oriented(0i8, 10i8, 1i8, 0i8, 8i8, 10i8, 8i8, 11i8, 10i8, -1i8, -1i8, -1i8, -1i8, -1i8, -1i8, -1i8, 13u8) &&
        row_entries_checked(3i8, 9i8, 0i8, 3i8, 11i8, 9i8, 11i8, 10i8, 9i8, -1i8, -1i8, -1i8, -1i8, -1i8, -1i8, -1i8, 14u8) && row_entries_cover(3i8, 9i8, 0i8, 3i8, 11i8, 9i8, 11i8, 10i8, 9i8, -1i8, -1i8, -1i8, -1i8, -1i8, -1i8, -1i8, 14u8) && row_entries_oriented(3i8, 9i8, 0i8, 3i8, 11i8, 9i8, 11i8, 10i8, 9i8, -1i8, -1i8, -1i8, -1i8, -1i8, -1i8, -1i8, 14u8) &&
        row_entries_checked(9i8, 8i8, 10i8, 10i8, 8i8, 11i8, -1i8, -1i8, -1i8, -1i8, -1i8, -1i8, -1i8, -1i8, -1i8, -1i8, 15u8) && row_entries_cover(9i8, 8i8, 10i8, 10i8, 8i8, 11i8, -1i8, -1i8, -1i8, -1i8, -1i8, -1i8, -1i8, -1i8, -1i8, -1i8, 15u8) && row_entries_oriented(9i8, 8i8, 10i8, 10i8, 8i8, 11i8, -1i8, -1i8, -1i8, -1i8, -1i8, -1i8, -1i8, -1i8, -1i8, -1i8, 15u8)
    ) by (bit_vector);
}

proof fn lemma_rows_checked_1()
    ensures
        row_checked(TRI_ROW_16, 16u8) && row_covers(TRI_ROW_16, 16u8) && row_oriented(TRI_ROW_16, 16u8),
        row_checked(TRI_ROW_17, 17u8) && row_covers(TRI_ROW_17, 17u8) && row_oriented(TRI_ROW_17, 17u8),
        row_checked(TRI_ROW_18, 18u8) && row_covers(TRI_ROW_18, 18u8) && row_oriented(TRI_ROW_18, 18u8),
        row_checked(TRI_ROW_19, 19u8) && row_covers(TRI_ROW_19, 19u8) && row_oriented(TRI_ROW_19, 19u8),
        row_checked(TRI_ROW_20, 20u8) && row_covers(TRI_ROW_20, 20u8) && row_oriented(TRI_ROW_20, 20u8),
        row_checked(TRI_ROW_21, 21u8) && row_covers(TRI_ROW_21, 21u8) && row_oriented(TRI_ROW_21, 21u8),
        row_checked(TRI_ROW_22, 22u8) && row_covers(TRI_ROW_22, 22u8) && row_oriented(TRI_ROW_22, 22u8),
        row_checked(TRI_ROW_23, 23u8) && row_covers(TRI_ROW_23, 23u8) && row_oriented(TRI_ROW_23, 23u8),
        row_checked(TRI_ROW_24, 24u8) && row_covers(TRI_ROW_24, 24u8) && row_oriented(TRI_ROW_24, 24u8),
        row_checked(TRI_ROW_25, 25u8) && row_covers(TRI_ROW_25, 25u8) && row_oriented(TRI_ROW_25, 25u8),
        row_checked(TRI_ROW_26, 26u8) && row_covers(TRI_ROW_26, 26u8) && row_oriented(TRI_ROW_26, 26u8),
        row_checked(TRI_ROW_27, 27u8) && row_covers(TRI_ROW_27, 27u8) && row_oriented(TRI_ROW_27, 27u8),
        row_checked(TRI_ROW_28, 28u8) && row_covers(TRI_ROW_28, 28u8) && row_oriented(TRI_ROW_28, 28u8),
        row_checked(TRI_ROW_29, 29u8) && row_covers(TRI_ROW_29, 29u8) && row_oriented(TRI_ROW_29, 29u8),
        row_checked(TRI_ROW_30, 30u8) && row_covers(TRI_ROW_30, 30u8) && row_oriented(TRI_ROW_30, 30u8),
        row_checked(TRI_ROW_31, 31u8) && row_covers(TRI_ROW_31, 31u8) && row_oriented(TRI_ROW_31, 31u8),
{
    assert(
        row_entries_checked(4i8, 7i8, 8i8, -1i8, -1i8, -1i8, -1i8, -1i8, -1i8, -1i8, -1i8, -1i8, -1i8, -1i8, -1i8, -1i8, 16u8) && row_entries_cover(4i8, 7i8, 8i8, -1i8, -1i8, -1i8, -1i8, -1i8, -1i8, -1i8, -1i8, -1i8, -1i8, -1i8, -1i8, -1i8, 16u8) && row_entries_oriented(4i8, 7i8, 8i8, -1i8, -1i8, -1i8, -1i8, -1i8, -1i8, -1i8, -1i8, -1i8, -1i8, -1i8, -1i8, -1i8, 16u8) &&
        row_entries_checked(4i8, 3i8, 0i8, 7i8, 3i8, 4i8, -1i8, -1i8, -1i8, -1i8, -1i8, -1i8, -1i8, -1i8, -1i8, -1i8, 17u8) && row_entries_cover(4i8, 3i8, 0i8, 7i8, 3i8, 4i8, -1i8, -1i8, -1i8, -1i8, -1i8, -1i8, -1i8, -1i8, -1i8, -1i8, 17u8) && row_entries_oriented(4i8, 3i8, 0i8, 7i8, 3i8, 4i8, -1i8, -1i8, -1i8, -1i8, -1i8, -1i8, -1i8, -1i8, -1i8, -1i8, 17u8) &&
        row_entries_checked(0i8, 1i8, 9i8, 8i8, 4i8, 7i8, -1i8, -1i8, -1i8, -1i8, -1i8, -1i8, -1i8, -1i8, -1i8, -1i8, 18u8) && row_entries_cover(0i8, 1i8, 9i8, 8i8, 4i8, 7i8, -1i8, -1i8, -1i8, -1i8, -1i8, -1i8, -1i8, -1i8, -1i8, -1i8, 18u8) && row_entries_oriented(0i8, 1i8, 9i8, 8i8, 4i8, 7i8, -1i8, -1i8, -1i8, -1i8, -1i8, -1i8, -1i8, -1i8, -1i8, -1i8, 18u8) &&
        row_entries_checked(4i8, 1i8, 9i8, 4i8, 7i8, 1i8, 7i8, 3i8, 1i8, -1i8, -1i8, -1i8, -1i8, -1i8, -1i8, -1i8, 19u8) && row_entries_cover(4i8, 1i8, 9i8, 4i8, 7i8, 1i8, 7i8, 3i8, 1i8, -1i8, -1i8, -1i8, -1i8, -1i8, -1i8, -1i8, 19u8) && row_entries_oriented(4i8, 1i8, 9i8, 4i8, 7i8, 1i8, 7i8, 3i8, 1i8, -1i8, -1i8, -1i8, -1i8, -1i8, -1i8, -1i8, 19u8) &&
        row_entries_checked(1i8, 2i8, 10i8, 8i8, 4i8, 7i8, -1i8, -1i8, -1i8, -1i8, -1i8, -1i8, -1i8, -1i8, -1i8, -1i8, 20u8) && row_entries_cover(1i8, 2i8, 10i8, 8i8, 4i8, 7i8, -1i8, -1i8, -1i8, -1i8, -1i8, -1i8, -1i8, -1i8, -1i8, -1i8, 20u8) && row_entries_oriented(1i8, 2i8, 10i8, 8i8, 4i8, 7i8, -1i8, -1i8, -1i8, -1i8, -1i8, -1i8, -1i8, -1i8, -1i8, -1i8, 20u8) &&
        row_entries_checked(3i8, 4i8, 7i8, 3i8, 0i8, 4i8, 1i8, 2i8, 10i8, -1i8, -1i8, -1i8, -1i8, -1i8, -1i8, -1i8, 21u8) && row_entries_cover(3i8, 4i8, 7i8, 3i8, 0i8, 4i8, 1i8, 2i8, 10i8, -1i8, -1i8, -1i8, -1i8, -1i8, -1i8, -1i8, 21u8) && row_entries_oriented(3i8, 4i8, 7i8, 3i8, 0i8, 4i8, 1i8, 2i8, 10i8, -1i8, -1i8, -1i8, -1i8, -1i8, -1i8, -1i8, 21u8) &&
        row_entries_checked(9i8, 2i8, 10i8, 9i8, 0i8, 2i8, 8i8, 4i8, 7i8, -1i8, -1i8, -1i8, -1i8, -1i8, -1i8, -1i8, 22u8) && row_entries_cover(9i8, 2i8, 10i8, 9i8, 0i8, 2i8, 8i8, 4i8, 7i8, -1i8, -1i8, -1i8, -1i8, -1i8, -1i8, -1i8, 22u8) && row_entries_oriented(9i8, 2i8, 10i8, 9i8, 0i8, 2i8, 8i8, 4i8, 7i8, -1i8, -1i8, -1i8, -1i8, -1i8, -1i8, -1i8, 22u8) &&
        row_entries_checked(2i8, 10i8, 9i8, 2i8, 9i8, 7i8, 2i8, 7i8, 3i8, 7i8, 9i8, 4i8, -1i8, -1i8, -1i8, -1i8, 23u8) && row_entries_cover(2i8, 10i8, 9i8, 2i8, 9i8, 7i8, 2i8, 7i8, 3i8, 7i8, 9i8, 4i8, -1i8, -1i8, -1i8, -1i8, 23u8) && row_entries_oriented(2i8, 10i8, 9i8, 2i8, 9i8, 7i8, 2i8, 7i8, 3i8, 7i8, 9i8, 4i8, -1i8, -1i8, -1i8, -1i8, 23u8) &&
        row_entries_checked(8i8, 4i8, 7i8, 3i8, 11i8, 2i8, -1i8, -1i8, -1i8, -1i8, -1i8, -1i8, -1i8, -1i8, -1i8, -1i8, 24u8) && row_entries_cover(8i8, 4i8, 7i8, 3i8, 11i8, 2i8, -1i8, -1i8, -1i8, -1i8, -1i8, -1i8, -1i8, -1i8, -1i8, -1i8, 24u8) && row_entries_oriented(8i8, 4i8, 7i8, 3i8, 11i8, 2i8, -1i8, -1i8, -1i8, -1i8, -1i8, -1i8, -1i8, -1i8, -1i8, -1i8, 24u8) &&
        row_entries_checked(11i8, 4i8, 7i8, 11i8, 2i8, 4i8, 2i8, 0i8, 4i8, -1i8, -1i8, -1i8, -1i8, -1i8, -1i8, -1i8, 25u8) && row_entries_cover(11i8, 4i8, 7i8, 11i8, 2i8, 4i8, 2i8, 0i8, 4i8, -1i8, -1i8, -1i8, -1i8, -1i8, -1i8, -1i8, 25u8) && row_entries_oriented(11i8, 4i8, 7i8, 11i8, 2i8, 4i8, 2i8, 0i8, 4i8, -1i8, -1i8, -1i8, -1i8, -1i8, -1i8, -1i8, 25u8) &&
        row_entries_checked(9i8, 0i8, 1i8, 8i8, 4i8, 7i8, 2i8, 3i8, 11i8, -1i8, -1i8, -1i8, -1i8, -1i8, -1i8, -1i8, 26u8) && row_entries_cover(9i8, 0i8, 1i8, 8i8, 4i8, 7i8, 2i8, 3i8, 11i8, -1i8, -1i8, -1i8, -1i8, -1i8, -1i8, -1i8, 26u8) && row_entries_oriented(9i8, 0i8, 1i8, 8i8, 4i8, 7i8, 2i8, 3i8, 11i8, -1i8, -1i8, -1i8, -1i8, -1i8, -1i8, -1i8, 26u8) &&
        row_entries_checked(4i8, 7i8, 11i8, 9i8, 4i8, 11i8, 9i8, 11i8, 2i8, 9i8, 2i8, 1i8, -1i8, -1i8, -1i8, -1i8, 27u8) && row_entries_cover(4i8, 7i8, 11i8, 9i8, 4i8, 11i8, 9i8, 11i8, 2i8, 9i8, 2i8, 1i8, -1i8, -1i8, -1i8, -1i8, 27u8) && row_entries_oriented(4i8, 7i8, 11i8, 9i8, 4i8, 11i8, 9i8, 11i8, 2i8, 9i8, 2i8, 1i8, -1i8, -1i8, -1i8, -1i8, 27u8) &&
        row_entries_checked(3i8, 10i8, 1i8, 3i8, 11i8, 10i8, 7i8, 8i8, 4i8, -1i8, -1i8, -1i8, -1i8, -1i8, -1i8, -1i8, 28u8) && row_entries_cover(3i8, 10i8, 1i8, 3i8, 11i8, 10i8, 7i8, 8i8, 4i8, -1i8, -1i8, -1i8, -1i8, -1i8, -1i8, -1i8, 28u8) && row_entries_oriented(3i8, 10i8, 1i8, 3i8, 11i8, 10i8, 7i8, 8i8, 4i8, -1i8, -1i8, -1i8, -1i8, -1i8, -1i8, -1i8, 28u8) &&
        row_entries_checked(1i8, 11i8, 10i8, 1i8, 4i8, 11i8, 1i8, 0i8, 4i8, 7i8, 11i8, 4i8, -1i8, -1i8, -1i8, -1i8, 29u8) && row_entries_cover(1i8, 11i8, 10i8, 1i8, 4i8, 11i8, 1i8, 0i8, 4i8, 7i8, 11i8, 4i8, -1i8, -1i8, -1i8, -1i8, 29u8) && row_entries_oriented(1i8, 11i8, 10i8, 1i8, 4i8, 11i8, 1i8, 0i8, 4i8, 7i8, 11i8, 4i8, -1i8, -1i8, -1i8, -1i8, 29u8) &&
        row_entries_checked(4i8, 7i8, 8i8, 9i8, 0i8, 11i8, 9i8, 11i8, 10i8, 11i8, 0i8, 3i8, -1i8, -1i8, -1i8, -1i8, 30u8) && row_entries_cover(4i8, 7i8, 8i8, 9i8, 0i8, 11i8, 9i8, 11i8, 10i8, 11i8, 0i8, 3i8, -1i8, -1i8, -1i8, -1i8, 30u8) && row_entries_oriented(4i8, 7i8, 8i8, 9i8, 0i8, 11i8, 9i8, 11i8, 10i8, 11i8, 0i8, 3i8, -1i8, -1i8, -1i8, -1i8, 30u8) &&
        row_entries_checked(4i8, 7i8, 11i8, 4i8, 11i8, 9i8, 9i8, 11i8, 10i8, -1i8, -1i8, -1i8, -1i8, -1i8, -1i8, -1i8, 31u8) && row_entries_cover(4i8, 7i8, 11i8, 4i8, 11i8, 9i8, 9i8, 11i8, 10i8, -1i8, -1i8, -1i8, -1i8, -1i8, -1i8, -1i8, 31u8) && row_entries_oriented(4i8, 7i8, 11i8, 4i8, 11i8, 9i8, 9i8, 11i8, 10i8, -1i8, -1i8, -1i8, -1i8, -1i8, -1i8, -1i8, 31u8)
    ) by (bit_vector);
}

proof fn lemma_rows_checked_2()
    ensures
        row_checked(TRI_ROW_32, 32u8) && row_covers(TRI_ROW_32, 32u8) && row_oriented(TRI_ROW_32, 32u8),
        row_checked(TRI_ROW_33, 33u8) && row_covers(TRI_ROW_33, 33u8) && row_oriented(TRI_ROW_33, 33u8),
        row_checked(TRI_ROW_34, 34u8) && row_covers(TRI_ROW_34, 34u8) && row_oriented(TRI_ROW_34, 34u8),
        row_checked(TRI_ROW_35, 35u8) && row_covers(TRI_ROW_35, 35u8) && row_oriented(TRI_ROW_35, 35u8),
        row_checked(TRI_ROW_36, 36u8) && row_covers(TRI_ROW_36, 36u8) && row_oriented(TRI_ROW_36, 36u8),
        row_checked(TRI_ROW_37, 37u8) && row_covers(TRI_ROW_37, 37u8) && row_oriented(TRI_ROW_37, 37u8),
        row_checked(TRI_ROW_38, 38u8) && row_covers(TRI_ROW_38, 38u8) && row_oriented(TRI_ROW_38, 38u8),
        row_checked(TRI_ROW_39, 39u8) && row_covers(TRI_ROW_39, 39u8) && row_oriented(TRI_ROW_39, 39u8),
        row_checked(TRI_ROW_40, 40u8) && row_covers(TRI_ROW_40, 40u8) && row_oriented(TRI_ROW_40, 40u8),
        row_checked(TRI_ROW_41, 41u8) && row_covers(TRI_ROW_41, 41u8) && row_oriented(TRI_ROW_41, 41u8),
        row_checked(TRI_ROW_42, 42u8) && row_covers(TRI_ROW_42, 42u8) && row_oriented(TRI_ROW_42, 42u8),
        row_checked(TRI_ROW_43, 43u8) && row_covers(TRI_ROW_43, 43u8) && row_oriented(TRI_ROW_43, 43u8),
        row_checked(TRI_ROW_44, 44u8) && row_covers(TRI_ROW_44, 44u8) && row_oriented(TRI_ROW_44, 44u8),
        row_checked(TRI_ROW_45, 45u8) && row_covers(TRI_ROW_45, 45u8) && row_oriented(TRI_ROW_45, 45u8),
        row_checked(TRI_ROW_46, 46u8) && row_covers(TRI_ROW_46, 46u8) && row_oriented(TRI_ROW_46, 46u8),
        row_checked(TRI_ROW_47, 47u8) && row_covers(TRI_ROW_47, 47u8) && row_oriented(TRI_ROW_47, 47u8),
{
    assert(
        row_entries_checked(9i8, 5i8, 4i8, -1i8, -1i8, -1i8, -1i8, -1i8, -1i8, -1i8, -1i8, -1i8, -1i8, -1i8, -1i8, -1i8, 32u8) && row_entries_cover(9i8, 5i8, 4i8, -1i8, -1i8, -1i8, -1i8, -1i8, -1i8, -1i8, -1i8, -1i8, -1i8, -1i8, -1i8, -1i8, 32u8) && row_entries_oriented(9i8, 5i8, 4i8, -1i8, -1i8, -1i8, -1i8, -1i8, -1i8, -1i8, -1i8, -1i8, -1i8, -1i8, -1i8, -1i8, 32u8) &&
        row_entries_checked(9i8, 5i8, 4i8, 0i8, 8i8, 3i8, -1i8, -1i8, -1i8, -1i8, -1i8, -1i8, -1i8, -1i8, -1i8, -1i8, 33u8) && row_entries_cover(9i8, 5i8, 4i8, 0i8, 8i8, 3i8, -1i8, -1i8, -1i8, -1i8, -1i8, -1i8, -1i8, -1i8, -1i8, -1i8, 33u8) && row_entries_oriented(9i8, 5i8, 4i8, 0i8, 8i8, 3i8, -1i8, -1i8, -1i8, -1i8, -1i8, -1i8, -1i8, -1i8, -1i8, -1i8, 33u8) &&
        row_entries_checked(0i8, 5i8, 4i8, 1i8, 5i8, 0i8, -1i8, -1i8, -1i8, -1i8, -1i8, -1i8, -1i8, -1i8, -1i8, -1i8, 34u8) && row_entries_cover(0i8, 5i8, 4i8, 1i8, 5i8, 0i8, -1i8, -1i8, -1i8, -1i8, -1i8, -1i8, -1i8, -1i8, -1i8, -1i8, 34u8) && row_entries_oriented(0i8, 5i8, 4i8, 1i8, 5i8, 0i8, -1i8, -1i8, -1i8, -1i8, -1i8, -1i8, -1i8, -1i8, -1i8, -1i8, 34u8) &&
        row_entries_checked(8i8, 5i8, 4i8, 8i8, 3i8, 5i8, 3i8, 1i8, 5i8, -1i8, -1i8, -1i8, -1i8, -1i8, -1i8, -1i8, 35u8) && row_entries_cover(8i8, 5i8, 4i8, 8i8, 3i8, 5i8, 3i8, 1i8, 5i8, -1i8, -1i8, -1i8, -1i8, -1i8, -1i8, -1i8, 35u8) && row_entries_oriented(8i8, 5i8, 4i8, 8i8, 3i8, 5i8, 3i8, 1i8, 5i8, -1i8, -1i8, -1i8, -1i8, -1i8, -1i8, -1i8, 35u8) &&
        row_entries_checked(1i8, 2i8, 10i8, 9i8, 5i8, 4i8, -1i8, -1i8, -1i8, -1i8, -1i8, -1i8, -1i8, -1i8, -1i8, -1i8, 36u8) && row_entries_cover(1i8, 2i8, 10i8, 9i8, 5i8, 4i8, -1i8, -1i8, -1i8, -1i8, -1i8, -1i8, -1i8, -1i8, -1i8, -1i8, 36u8) && row_entries_oriented(1i8, 2i8, 10i8, 9i8, 5i8, 4i8, -1i8, -1i8, -1i8, -1i8, -1i8, -1i8, -1i8, -1i8, -1i8, -1i8, 36u8) &&
        row_entries_checked(3i8, 0i8, 8i8, 1i8, 2i8, 10i8, 4i8, 9i8, 5i8, -1i8, -1i8, -1i8, -1i8, -1i8, -1i8, -1i8, 37u8) && row_entries_cover(3i8, 0i8, 8i8, 1i8, 2i8, 10i8, 4i8, 9i8, 5i8, -1i8, -1i8, -1i8, -1i8, -1i8, -1i8, -1i8, 37u8) && row_entries_oriented(3i8, 0i8, 8i8, 1i8, 2i8, 10i8, 4i8, 9i8, 5i8, -1i8, -1i8, -1i8, -1i8, -1i8, -1i8, -1i8, 37u8) &&
        row_entries_checked(5i8, 2i8, 10i8, 5i8, 4i8, 2i8, 4i8, 0i8, 2i8, -1i8, -1i8, -1i8, -1i8, -1i8, -1i8, -1i8, 38u8) && row_entries_cover(5i8, 2i8, 10i8, 5i8, 4i8, 2i8, 4i8, 0i8, 2i8, -1i8, -1i8, -1i8, -1i8, -1i8, -1i8, -1i8, 38u8) && row_entries_oriented(5i8, 2i8, 10i8, 5i8, 4i8, 2i8, 4i8, 0i8, 2i8, -1i8, -1i8, -1i8, -1i8, -1i8, -1i8, -1i8, 38u8) &&
        row_entries_checked(2i8, 10i8, 5i8, 3i8, 2i8, 5i8, 3i8, 5i8, 4i8, 3i8, 4i8, 8i8, -1i8, -1i8, -1i8, -1i8, 39u8) && row_entries_cover(2i8, 10i8, 5i8, 3i8, 2i8, 5i8, 3i8, 5i8, 4i8, 3i8, 4i8, 8i8, -1i8, -1i8, -1i8, -1i8, 39u8) && row_entries_oriented(2i8, 10i8, 5i8, 3i8, 2i8, 5i8, 3i8, 5i8, 4i8, 3i8, 4i8, 8i8, -1i8, -1i8, -1i8, -1i8, 39u8) &&
        row_entries_checked(9i8, 5i8, 4i8, 2i8, 3i8, 11i8, -1i8, -1i8, -1i8, -1i8, -1i8, -1i8, -1i8, -1i8, -1i8, -1i8, 40u8) && row_entries_cover(9i8, 5i8, 4i8, 2i8, 3i8, 11i8, -1i8, -1i8, -1i8, -1i8, -1i8, -1i8, -1i8, -1i8, -1i8, -1i8, 40u8) && row_entries_oriented(9i8, 5i8, 4i8, 2i8, 3i8, 11i8, -1i8, -1i8, -1i8, -1i8, -1i8, -1i8, -1i8, -1i8, -1i8, -1i8, 40u8) &&
        row_entries_checked(0i8, 11i8, 2i8, 0i8, 8i8, 11i8, 4i8, 9i8, 5i8, -1i8, -1i8, -1i8, -1i8, -1i8, -1i8, -1i8, 41u8) && row_entries_cover(0i8, 11i8, 2i8, 0i8, 8i8, 11i8, 4i8, 9i8, 5i8, -1i8, -1i8, -1i8, -1i8, -1i8, -1i8, -1i8, 41u8) && row_entries_oriented(0i8, 11i8, 2i8, 0i8, 8i8, 11i8, 4i8, 9i8, 5i8, -1i8, -1i8, -1i8, -1i8, -1i8, -1i8, -1i8, 41u8) &&
        row_entries_checked(0i8, 5i8, 4i8, 0i8, 1i8, 5i8, 2i8, 3i8, 11i8, -1i8, -1i8, -1i8, -1i8, -1i8, -1i8, -1i8, 42u8) && row_entries_cover(0i8, 5i8, 4i8, 0i8, 1i8, 5i8, 2i8, 3i8, 11i8, -1i8, -1i8, -1i8, -1i8, -1i8, -1i8, -1i8, 42u8) && row_entries_oriented(0i8, 5i8, 4i8, 0i8, 1i8, 5i8, 2i8, 3i8, 11i8, -1i8, -1i8, -1i8, -1i8, -1i8, -1i8, -1i8, 42u8) &&
        row_entries_checked(2i8, 1i8, 5i8, 2i8, 5i8, 8i8, 2i8, 8i8, 11i8, 4i8, 8i8, 5i8, -1i8, -1i8, -1i8, -1i8, 43u8) && row_entries_cover(2i8, 1i8, 5i8, 2i8, 5i8, 8i8, 2i8, 8i8, 11i8, 4i8, 8i8, 5i8, -1i8, -1i8, -1i8, -1i8, 43u8) && row_entries_oriented(2i8, 1i8, 5i8, 2i8, 5i8, 8i8, 2i8, 8i8, 11i8, 4i8, 8i8, 5i8, -1i8, -1i8, -1i8, -1i8, 43u8) &&
        row_entries_checked(10i8, 3i8, 11i8, 10i8, 1i8, 3i8, 9i8, 5i8, 4i8, -1i8, -1i8, -1i8, -1i8, -1i8, -1i8, -1i8, 44u8) && row_entries_cover(10i8, 3i8, 11i8, 10i8, 1i8, 3i8, 9i8, 5i8, 4i8, -1i8, -1i8, -1i8, -1i8, -1i8, -1i8, -1i8, 44u8) && row_entries_oriented(10i8, 3i8, 11i8, 10i8, 1i8, 3i8, 9i8, 5i8, 4i8, -1i8, -1i8, -1i8, -1i8, -1i8, -1i8, -1i8, 44u8) &&
        row_entries_checked(4i8, 9i8, 5i8, 0i8, 8i8, 1i8, 8i8, 10i8, 1i8, 8i8, 11i8, 10i8, -1i8, -1i8, -1i8, -1i8, 45u8) && row_entries_cover(4i8, 9i8, 5i8, 0i8, 8i8, 1i8, 8i8, 10i8, 1i8, 8i8, 11i8, 10i8, -1i8, -1i8, -1i8, -1i8, 45u8) && row_entries_oriented(4i8, 9i8, 5i8, 0i8, 8i8, 1i8, 8i8, 10i8, 1i8, 8i8, 11i8, 10i8, -1i8, -1i8, -1i8, -1i8, 45u8) &&
        row_entries_checked(5i8, 4i8, 0i8, 5i8, 0i8, 11i8, 5i8, 11i8, 10i8, 11i8, 0i8, 3i8, -1i8, -1i8, -1i8, -1i8, 46u8) && row_entries_cover(5i8, 4i8, 0i8, 5i8, 0i8, 11i8, 5i8, 11i8, 10i8, 11i8, 0i8, 3i8, -1i8, -1i8, -1i8, -1i8, 46u8) && row_entries_oriented(5i8, 4i8, 0i8, 5i8, 0i8, 11i8, 5i8, 11i8, 10i8, 11i8, 0i8, 3i8, -1i8, -1i8, -1i8, -1i8, 46u8) &&
        row_entries_checked(5i8, 4i8, 8i8, 5i8, 8i8, 10i8, 10i8, 8i8, 11i8, -1i8, -1i8, -1i8, -1i8, -1i8, -1i8, -1i8, 47u8) && row_entries_cover(5i8, 4i8, 8i8, 5i8, 8i8, 10i8, 10i8, 8i8, 11i8, -1i8, -1i8, -1i8, -1i8, -1i8, -1i8, -1i8, 47u8) && row_entries_oriented(5i8, 4i8, 8i8, 5i8, 8i8, 10i8, 10i8, 8i8, 11i8, -1i8, -1i8, -1i8, -1i8, -1i8, -1i8, -1i8, 47u8)
    ) by (bit_vector);
}

proof fn lemma_rows_checked_3()
    ensures
        row_checked(TRI_ROW_48, 48u8) && row_covers(TRI_ROW_48, 48u8) && row_oriented(TRI_ROW_48, 48u8),
        row_checked(TRI_ROW_49, 49u8) && row_covers(TRI_ROW_49, 49u8) && row_oriented(TRI_ROW_49, 49u8),
        row_checked(TRI_ROW_50, 50u8) && row_covers(TRI_ROW_50, 50u8) && row_oriented(TRI_ROW_50, 50u8),
        row_checked(TRI_ROW_51, 51u8) && row_covers(TRI_ROW_51, 51u8) && row_oriented(TRI_ROW_51, 51u8),
        row_checked(TRI_ROW_52, 52u8) && row_covers(TRI_ROW_52, 52u8) && row_oriented(TRI_ROW_52, 52u8),
        row_checked(TRI_ROW_53, 53u8) && row_covers(TRI_ROW_53, 53u8) && row_oriented(TRI_ROW_53, 53u8),
        row_checked(TRI_ROW_54, 54u8) && row_covers(TRI_ROW_54, 54u8) && row_oriented(TRI_ROW_54, 54u8),
        row_checked(TRI_ROW_55, 55u8) && row_covers(TRI_ROW_55, 55u8) && row_oriented(TRI_ROW_55, 55u8),
        row_checked(TRI_ROW_56, 56u8) && row_covers(TRI_ROW_56, 56u8) && row_oriented(TRI_ROW_56, 56u8),
        row_checked(TRI_ROW_57, 57u8) && row_covers(TRI_ROW_57, 57u8) && row_oriented(TRI_ROW_57, 57u8),
        row_checked(TRI_ROW_58, 58u8) && row_covers(TRI_ROW_58, 58u8) && row_oriented(TRI_ROW_58, 58u8),
        row_checked(TRI_ROW_59, 59u8) && row_covers(TRI_ROW_59, 59u8) && row_oriented(TRI_ROW_59, 59u8),
        row_checked(TRI_ROW_60, 60u8) && row_covers(TRI_ROW_60, 60u8) && row_oriented(TRI_ROW_60, 60u8),
        row_checked(TRI_ROW_61, 61u8) && row_covers(TRI_ROW_61, 61u8) && row_oriented(TRI_ROW_61, 61u8),
        row_checked(TRI_ROW_62, 62u8) && row_covers(TRI_ROW_62, 62u8) && row_oriented(TRI_ROW_62, 62u8),
        row_checked(TRI_ROW_63, 63u8) && row_covers(TRI_ROW_63, 63u8) && row_oriented(TRI_ROW_63, 63u8),
{
    assert(
        row_entries_checked(9i8, 7i8, 8i8, 5i8, 7i8, 9i8, -1i8, -1i8, -1i8, -1i8, -1i8, -1i8, -1i8, -1i8, -1i8, -1i8, 48u8) && row_entries_cover(9i8, 7i8, 8i8, 5i8, 7i8, 9i8, -1i8, -1i8, -1i8, -1i8, -1i8, -1i8, -1i8, -1i8, -1i8, -1i8, 48u8) && row_entries_oriented(9i8, 7i8, 8i8, 5i8, 7i8, 9i8, -1i8, -1i8, -1i8, -1i8, -1i8, -1i8, -1i8, -1i8, -1i8, -1i8, 48u8) &&
        row_entries_checked(9i8, 3i8, 0i8, 9i8, 5i8, 3i8, 5i8, 7i8, 3i8, -1i8, -1i8, -1i8, -1i8, -1i8, -1i8, -1i8, 49u8) && row_entries_cover(9i8, 3i8, 0i8, 9i8, 5i8, 3i8, 5i8, 7i8, 3i8, -1i8, -1i8, -1i8, -1i8, -1i8, -1i8, -1i8, 49u8) && row_entries_oriented(9i8, 3i8, 0i8, 9i8, 5i8, 3i8, 5i8, 7i8, 3i8, -1i8, -1i8, -1i8, -1i8, -1i8, -1i8, -1i8, 49u8) &&
        row_entries_checked(0i8, 7i8, 8i8, 0i8, 1i8, 7i8, 1i8, 5i8, 7i8, -1i8, -1i8, -1i8, -1i8, -1i8, -1i8, -1i8, 50u8) && row_entries_cover(0i8, 7i8, 8i8, 0i8, 1i8, 7i8, 1i8, 5i8, 7i8, -1i8, -1i8, -1i8, -1i8, -1i8, -1i8, -1i8, 50u8) && row_entries_oriented(0i8, 7i8, 8i8, 0i8, 1i8, 7i8, 1i8, 5i8, 7i8, -1i8, -1i8, -1i8, -1i8, -1i8, -1i8, -1i8, 50u8) &&
        row_entries_checked(1i8, 5i8, 3i8, 3i8, 5i8, 7i8, -1i8, -1i8, -1i8, -1i8, -1i8, -1i8, -1i8, -1i8, -1i8, -1i8, 51u8) && row_entries_cover(1i8, 5i8, 3i8, 3i8, 5i8, 7i8, -1i8, -1i8, -1i8, -1i8, -1i8, -1i8, -1i8, -1i8, -1i8, -1i8, 51u8) && row_entries_oriented(1i8, 5i8, 3i8, 3i8, 5i8, 7i8, -1i8, -1i8, -1i8, -1i8, -1i8, -1i8, -1i8, -1i8, -1i8, -1i8, 51u8) &&
        row_entries_checked(9i8, 7i8, 8i8, 9i8, 5i8, 7i8, 10i8, 1i8, 2i8, -1i8, -1i8, -1i8, -1i8, -1i8, -1i8, -1i8, 52u8) && row_entries_cover(9i8, 7i8, 8i8, 9i8, 5i8, 7i8, 10i8, 1i8, 2i8, -1i8, -1i8, -1i8, -1i8, -1i8, -1i8, -1i8, 52u8) && row_entries_oriented(9i8, 7i8, 8i8, 9i8, 5i8, 7i8, 10i8, 1i8, 2i8, -1i8, -1i8, -1i8, -1i8, -1i8, -1i8, -1i8, 52u8) &&
        row_entries_checked(10i8, 1i8, 2i8, 9i8, 5i8, 0i8, 5i8, 3i8, 0i8, 5i8, 7i8, 3i8, -1i8, -1i8, -1i8, -1i8, 53u8) && row_entries_cover(10i8, 1i8, 2i8, 9i8, 5i8, 0i8, 5i8, 3i8, 0i8, 5i8, 7i8, 3i8, -1i8, -1i8, -1i8, -1i8, 53u8) && row_entries_oriented(10i8, 1i8, 2i8, 9i8, 5i8, 0i8, 5i8, 3i8, 0i8, 5i8, 7i8, 3i8, -1i8, -1i8, -1i8, -1i8, 53u8) &&
        row_entries_checked(8i8, 0i8, 2i8, 8i8, 2i8, 5i8, 8i8, 5i8, 7i8, 10i8, 5i8, 2i8, -1i8, -1i8, -1i8, -1i8, 54u8) && row_entries_cover(8i8, 0i8, 2i8, 8i8, 2i8, 5i8, 8i8, 5i8, 7i8, 10i8, 5i8, 2i8, -1i8, -1i8, -1i8, -1i8, 54u8) && row_entries_oriented(8i8, 0i8, 2i8, 8i8, 2i8, 5i8, 8i8, 5i8, 7i8, 10i8, 5i8, 2i8, -1i8, -1i8, -1i8, -1i8, 54u8) &&
        row_entries_checked(2i8, 10i8, 5i8, 2i8, 5i8, 3i8, 3i8, 5i8, 7i8, -1i8, -1i8, -1i8, -1i8, -1i8, -1i8, -1i8, 55u8) && row_entries_cover(2i8, 10i8, 5i8, 2i8, 5i8, 3i8, 3i8, 5i8, 7i8, -1i8, -1i8, -1i8, -1i8, -1i8, -1i8, -1i8, 55u8) && row_entries_oriented(2i8, 10i8, 5i8, 2i8, 5i8, 3i8, 3i8, 5i8, 7i8, -1i8, -1i8, -1i8, -1i8, -1i8, -1i8, -1i8, 55u8) &&
        row_entries_checked(7i8, 9i8, 5i8, 7i8, 8i8, 9i8, 3i8, 11i8, 2i8, -1i8, -1i8, -1i8, -1i8, -1i8, -1i8, -1i8, 56u8) && row_entries_cover(7i8, 9i8, 5i8, 7i8, 8i8, 9i8, 3i8, 11i8, 2i8, -1i8, -1i8, -1i8, -1i8, -1i8, -1i8, -1i8, 56u8) && row_entries_oriented(7i8, 9i8, 5i8, 7i8, 8i8, 9i8, 3i8, 11i8, 2i8, -1i8, -1i8, -1i8, -1i8, -1i8, -1i8, -1i8, 56u8) &&
        row_entries_checked(9i8, 5i8, 7i8, 9i8, 7i8, 2i8, 9i8, 2i8, 0i8, 2i8, 7i8, 11i8, -1i8, -1i8, -1i8, -1i8, 57u8) && row_entries_cover(9i8, 5i8, 7i8, 9i8, 7i8, 2i8, 9i8, 2i8, 0i8, 2i8, 7i8, 11i8, -1i8, -1i8, -1i8, -1i8, 57u8) && row_entries_oriented(9i8, 5i8, 7i8, 9i8, 7i8, 2i8, 9i8, 2i8, 0i8, 2i8, 7i8, 11i8, -1i8, -1i8, -1i8, -1i8, 57u8) &&
        row_entries_checked(2i8, 3i8, 11i8, 0i8, 1i8, 8i8, 1i8, 7i8, 8i8, 1i8, 5i8, 7i8, -1i8, -1i8, -1i8, -1i8, 58u8) && row_entries_cover(2i8, 3i8, 11i8, 0i8, 1i8, 8i8, 1i8, 7i8, 8i8, 1i8, 5i8, 7i8, -1i8, -1i8, -1i8, -1i8, 58u8) && row_entries_oriented(2i8, 3i8, 11i8, 0i8, 1i8, 8i8, 1i8, 7i8, 8i8, 1i8, 5i8, 7i8, -1i8, -1i8, -1i8, -1i8, 58u8) &&
        row_entries_checked(11i8, 2i8, 1i8, 11i8, 1i8, 7i8, 7i8, 1i8, 5i8, -1i8, -1i8, -1i8, -1i8, -1i8, -1i8, -1i8, 59u8) && row_entries_cover(11i8, 2i8, 1i8, 11i8, 1i8, 7i8, 7i8, 1i8, 5i8, -1i8, -1i8, -1i8, -1i8, -1i8, -1i8, -1i8, 59u8) && row_entries_oriented(11i8, 2i8, 1i8, 11i8, 1i8, 7i8, 7i8, 1i8, 5i8, -1i8, -1i8, -1i8, -1i8, -1i8, -1i8, -1i8, 59u8) &&
        row_entries_checked(9i8, 5i8, 8i8, 8i8, 5i8, 7i8, 10i8, 1i8, 3i8, 10i8, 3i8, 11i8, -1i8, -1i8, -1i8, -1i8, 60u8) && row_entries_cover(9i8, 5i8, 8i8, 8i8, 5i8, 7i8, 10i8, 1i8, 3i8, 10i8, 3i8, 11i8, -1i8, -1i8, -1i8, -1i8, 60u8) && row_entries_oriented(9i8, 5i8, 8i8, 8i8, 5i8, 7i8, 10i8, 1i8, 3i8, 10i8, 3i8, 11i8, -1i8, -1i8, -1i8, -1i8, 60u8) &&
        row_entries_checked(5i8, 7i8, 0i8, 5i8, 0i8, 9i8, 7i8, 11i8, 0i8, 1i8, 0i8, 10i8, 11i8, 10i8, 0i8, -1i8, 61u8) && row_entries_cover(5i8, 7i8, 0i8, 5i8, 0i8, 9i8, 7i8, 11i8, 0i8, 1i8, 0i8, 10i8, 11i8, 10i8, 0i8, -1i8, 61u8) && row_entries_oriented(5i8, 7i8, 0i8, 5i8, 0i8, 9i8, 7i8, 11i8, 0i8, 1i8, 0i8, 10i8, 11i8, 10i8, 0i8, -1i8, 61u8) &&
        row_entries_checked(11i8, 10i8, 0i8, 11i8, 0i8, 3i8, 10i8, 5i8, 0i8, 8i8, 0i8, 7i8, 5i8, 7i8, 0i8, -1i8, 62u8) && row_entries_cover(11i8, 10i8, 0i8, 11i8, 0i8, 3i8, 10i8, 5i8, 0i8, 8i8, 0i8, 7i8, 5i8, 7i8, 0i8, -1i8, 62u8) && row_entries_oriented(11i8, 10i8, 0i8, 11i8, 0i8, 3i8, 10i8, 5i8, 0i8, 8i8, 0i8, 7i8, 5i8, 7i8, 0i8, -1i8, 62u8) &&
        row_entries_checked(11i8, 10i8, 5i8, 7i8, 11i8, 5i8, -1i8, -1i8, -1i8, -1i8, -1i8, -1i8, -1i8, -1i8, -1i8, -1i8, 63u8) && row_entries_cover(11i8, 10i8, 5i8, 7i8, 11i8, 5i8, -1i8, -1i8, -1i8, -1i8, -1i8, -1i8, -1i8, -1i8, -1i8, -1i8, 63u8) && row_entries_oriented(11i8, 10i8, 5i8, 7i8, 11i8, 5i8, -1i8, -1i8, -1i8, -1i8, -1i8, -1i8, -1i8, -1i8, -1i8, -1i8, 63u8)
    ) by (bit_vector);
}

proof fn lemma_rows_checked_4()
    ensures
        row_checked(TRI_ROW_64, 64u8) && row_covers(TRI_ROW_64, 64u8) && row_oriented(TRI_ROW_64, 64u8),
        row_checked(TRI_ROW_65, 65u8) && row_covers(TRI_ROW_65, 65u8) && row_oriented(TRI_ROW_65, 65u8),
        row_checked(TRI_ROW_66, 66u8) && row_covers(TRI_ROW_66, 66u8) && row_oriented(TRI_ROW_66, 66u8),
        row_checked(TRI_ROW_67, 67u8) && row_covers(TRI_ROW_67, 67u8) && row_oriented(TRI_ROW_67, 67u8),
        row_checked(TRI_ROW_68, 68u8) && row_covers(TRI_ROW_68, 68u8) && row_oriented(TRI_ROW_68, 68u8),
        row_checked(TRI_ROW_69, 69u8) && row_covers(TRI_ROW_69, 69u8) && row_oriented(TRI_ROW_69, 69u8),
        row_checked(TRI_ROW_70, 70u8) && row_covers(TRI_ROW_70, 70u8) && row_oriented(TRI_ROW_70, 70u8),
        row_checked(TRI_ROW_71, 71u8) && row_covers(TRI_ROW_71, 71u8) && row_oriented(TRI_ROW_71, 71u8),
        row_checked(TRI_ROW_72, 72u8) && row_covers(TRI_ROW_72, 72u8) && row_oriented(TRI_ROW_72, 72u8),
        row_checked(TRI_ROW_73, 73u8) && row_covers(TRI_ROW_73, 73u8) && row_oriented(TRI_ROW_73, 73u8),
        row_checked(TRI_ROW_74, 74u8) && row_covers(TRI_ROW_74, 74u8) && row_oriented(TRI_ROW_74, 74u8),
        row_checked(TRI_ROW_75, 75u8) && row_covers(TRI_ROW_75, 75u8) && row_oriented(TRI_ROW_75, 75u8),
        row_checked(TRI_ROW_76, 76u8) && row_covers(TRI_ROW_76, 76u8) && row_oriented(TRI_ROW_76, 76u8),
        row_checked(TRI_ROW_77, 77u8) && row_covers(TRI_ROW_77, 77u8) && row_oriented(TRI_ROW_77, 77u8),
        row_checked(TRI_ROW_78, 78u8) && row_covers(TRI_ROW_78, 78u8) && row_oriented(TRI_ROW_78, 78u8),
        row_checked(TRI_ROW_79, 79u8) && row_covers(TRI_ROW_79, 79u8) && row_oriented(TRI_ROW_79, 79u8),
{
    assert(
        row_entries_checked(10i8, 6i8, 5i8, -1i8, -1i8, -1i8, -1i8, -1i8, -1i8, -1i8, -1i8, -1i8, -1i8, -1i8, -1i8, -1i8, 64u8) && row_entries_cover(10i8, 6i8, 5i8, -1i8, -1i8, -1i8, -1i8, -1i8, -1i8, -1i8, -1i8, -1i8, -1i8, -1i8, -1i8, -1i8, 64u8) && row_entries_oriented(10i8, 6i8, 5i8, -1i8, -1i8, -1i8, -1i8, -1i8, -1i8, -1i8, -1i8, -1i8, -1i8, -1i8, -1i8, -1i8, 64u8) &&
        row_entries_checked(0i8, 8i8, 3i8, 5i8, 10i8, 6i8, -1i8, -1i8, -1i8, -1i8, -1i8, -1i8, -1i8, -1i8, -1i8, -1i8, 65u8) && row_entries_cover(0i8, 8i8, 3i8, 5i8, 10i8, 6i8, -1i8, -1i8, -1i8, -1i8, -1i8, -1i8, -1i8, -1i8, -1i8, -1i8, 65u8) && row_entries_oriented(0i8, 8i8, 3i8, 5i8, 10i8, 6i8, -1i8, -1i8, -1i8, -1i8, -1i8, -1i8, -1i8, -1i8, -1i8, -1i8, 65u8) &&
        row_entries_checked(9i8, 0i8, 1i8, 5i8, 10i8, 6i8, -1i8, -1i8, -1i8, -1i8, -1i8, -1i8, -1i8, -1i8, -1i8, -1i8, 66u8) && row_entries_cover(9i8, 0i8, 1i8, 5i8, 10i8, 6i8, -1i8, -1i8, -1i8, -1i8, -1i8, -1i8, -1i8, -1i8, -1i8, -1i8, 66u8) && row_entries_oriented(9i8, 0i8, 1i8, 5i8, 10i8, 6i8, -1i8, -1i8, -1i8, -1i8, -1i8, -1i8, -1i8, -1i8, -1i8, -1i8, 66u8) &&
        row_entries_checked(1i8, 8i8, 3i8, 1i8, 9i8, 8i8, 5i8, 10i8, 6i8, -1i8, -1i8, -1i8, -1i8, -1i8, -1i8, -1i8, 67u8) && row_entries_cover(1i8, 8i8, 3i8, 1i8, 9i8, 8i8, 5i8, 10i8, 6i8, -1i8, -1i8, -1i8, -1i8, -1i8, -1i8, -1i8, 67u8) && row_entries_oriented(1i8, 8i8, 3i8, 1i8, 9i8, 8i8, 5i8, 10i8, 6i8, -1i8, -1i8, -1i8, -1i8, -1i8, -1i8, -1i8, 67u8) &&
        row_entries_checked(1i8, 6i8, 5i8, 2i8, 6i8, 1i8, -1i8, -1i8, -1i8, -1i8, -1i8, -1i8, -1i8, -1i8, -1i8, -1i8, 68u8) && row_entries_cover(1i8, 6i8, 5i8, 2i8, 6i8, 1i8, -1i8, -1i8, -1i8, -1i8, -1i8, -1i8, -1i8, -1i8, -1i8, -1i8, 68u8) && row_entries_oriented(1i8, 6i8, 5i8, 2i8, 6i8, 1i8, -1i8, -1i8, -1i8, -1i8, -1i8, -1i8, -1i8, -1i8, -1i8, -1i8, 68u8) &&
        row_entries_checked(1i8, 6i8, 5i8, 1i8, 2i8, 6i8, 3i8, 0i8, 8i8, -1i8, -1i8, -1i8, -1i8, -1i8, -1i8, -1i8, 69u8) && row_entries_cover(1i8, 6i8, 5i8, 1i8, 2i8, 6i8, 3i8, 0i8, 8i8, -1i8, -1i8, -1i8, -1i8, -1i8, -1i8, -1i8, 69u8) && row_entries_oriented(1i8, 6i8, 5i8, 1i8, 2i8, 6i8, 3i8, 0i8, 8i8, -1i8, -1i8, -1i8, -1i8, -1i8, -1i8, -1i8, 69u8) &&
        row_entries_checked(9i8, 6i8, 5i8, 9i8, 0i8, 6i8, 0i8, 2i8, 6i8, -1i8, -1i8, -1i8, -1i8, -1i8, -1i8, -1i8, 70u8) && row_entries_cover(9i8, 6i8, 5i8, 9i8, 0i8, 6i8, 0i8, 2i8, 6i8, -1i8, -1i8, -1i8, -1i8, -1i8, -1i8, -1i8, 70u8) && row_entries_oriented(9i8, 6i8, 5i8, 9i8, 0i8, 6i8, 0i8, 2i8, 6i8, -1i8, -1i8, -1i8, -1i8, -1i8, -1i8, -1i8, 70u8) &&
        row_entries_checked(5i8, 9i8, 8i8, 5i8, 8i8, 2i8, 5i8, 2i8, 6i8, 3i8, 2i8, 8i8, -1i8, -1i8, -1i8, -1i8, 71u8) && row_entries_cover(5i8, 9i8, 8i8, 5i8, 8i8, 2i8, 5i8, 2i8, 6i8, 3i8, 2i8, 8i8, -1i8, -1i8, -1i8, -1i8, 71u8) && row_entries_oriented(5i8, 9i8, 8i8, 5i8, 8i8, 2i8, 5i8, 2i8, 6i8, 3i8, 2i8, 8i8, -1i8, -1i8, -1i8, -1i8, 71u8) &&
        row_entries_checked(2i8, 3i8, 11i8, 10i8, 6i8, 5i8, -1i8, -1i8, -1i8, -1i8, -1i8, -1i8, -1i8, -1i8, -1i8, -1i8, 72u8) && row_entries_cover(2i8, 3i8, 11i8, 10i8, 6i8, 5i8, -1i8, -1i8, -1i8, -1i8, -1i8, -1i8, -1i8, -1i8, -1i8, -1i8, 72u8) && row_entries_oriented(2i8, 3i8, 11i8, 10i8, 6i8, 5i8, -1i8, -1i8, -1i8, -1i8, -1i8, -1i8, -1i8, -1i8, -1i8, -1i8, 72u8) &&
        row_entries_checked(11i8, 0i8, 8i8, 11i8, 2i8, 0i8, 10i8, 6i8, 5i8, -1i8, -1i8, -1i8, -1i8, -1i8, -1i8, -1i8, 73u8) && row_entries_cover(11i8, 0i8, 8i8, 11i8, 2i8, 0i8, 10i8, 6i8, 5i8, -1i8, -1i8, -1i8, -1i8, -1i8, -1i8, -1i8, 73u8) && row_entries_oriented(11i8, 0i8, 8i8, 11i8, 2i8, 0i8, 10i8, 6i8, 5i8, -1i8, -1i8, -1i8, -1i8, -1i8, -1i8, -1i8, 73u8) &&
        row_entries_checked(0i8, 1i8, 9i8, 2i8, 3i8, 11i8, 5i8, 10i8, 6i8, -1i8, -1i8, -1i8, -1i8, -1i8, -1i8, -1i8, 74u8) && row_entries_cover(0i8, 1i8, 9i8, 2i8, 3i8, 11i8, 5i8, 10i8, 6i8, -1i8, -1i8, -1i8, -1i8, -1i8, -1i8, -1i8, 74u8) && row_entries_oriented(0i8, 1i8, 9i8, 2i8, 3i8, 11i8, 5i8, 10i8, 6i8, -1i8, -1i8, -1i8, -1i8, -1i8, -1i8, -1i8, 74u8) &&
        row_entries_checked(5i8, 10i8, 6i8, 1i8, 9i8, 2i8, 9i8, 11i8, 2i8, 9i8, 8i8, 11i8, -1i8, -1i8, -1i8, -1i8, 75u8) && row_entries_cover(5i8, 10i8, 6i8, 1i8, 9i8, 2i8, 9i8, 11i8, 2i8, 9i8, 8i8, 11i8, -1i8, -1i8, -1i8, -1i8, 75u8) && row_entries_oriented(5i8, 10i8, 6i8, 1i8, 9i8, 2i8, 9i8, 11i8, 2i8, 9i8, 8i8, 11i8, -1i8, -1i8, -1i8, -1i8, 75u8) &&
        row_entries_checked(6i8, 3i8, 11i8, 6i8, 5i8, 3i8, 5i8, 1i8, 3i8, -1i8, -1i8, -1i8, -1i8, -1i8, -1i8, -1i8, 76u8) && row_entries_cover(6i8, 3i8, 11i8, 6i8, 5i8, 3i8, 5i8, 1i8, 3i8, -1i8, -1i8, -1i8, -1i8, -1i8, -1i8, -1i8, 76u8) && row_entries_oriented(6i8, 3i8, 11i8, 6i8, 5i8, 3i8, 5i8, 1i8, 3i8, -1i8, -1i8, -1i8, -1i8, -1i8, -1i8, -1i8, 76u8) &&
        row_entries_checked(0i8, 8i8, 11i8, 0i8, 11i8, 5i8, 0i8, 5i8, 1i8, 5i8, 11i8, 6i8, -1i8, -1i8, -1i8, -1i8, 77u8) && row_entries_cover(0i8, 8i8, 11i8, 0i8, 11i8, 5i8, 0i8, 5i8, 1i8, 5i8, 11i8, 6i8, -1i8, -1i8, -1i8, -1i8, 77u8) && row_entries_oriented(0i8, 8i8, 11i8, 0i8, 11i8, 5i8, 0i8, 5i8, 1i8, 5i8, 11i8, 6i8, -1i8, -1i8, -1i8, -1i8, 77u8) &&
        row_entries_checked(3i8, 11i8, 6i8, 0i8, 3i8, 6i8, 0i8, 6i8, 5i8, 0i8, 5i8, 9i8, -1i8, -1i8, -1i8, -1i8, 78u8) && row_entries_cover(3i8, 11i8, 6i8, 0i8, 3i8, 6i8, 0i8, 6i8, 5i8, 0i8, 5i8, 9i8, -1i8, -1i8, -1i8, -1i8, 78u8) && row_entries_oriented(3i8, 11i8, 6i8, 0i8, 3i8, 6i8, 0i8, 6i8, 5i8, 0i8, 5i8, 9i8, -1i8, -1i8, -1i8, -1i8, 78u8) &&
        row_entries_checked(6i8, 5i8, 9i8, 6i8, 9i8, 11i8, 11i8, 9i8, 8i8, -1i8, -1i8, -1i8, -1i8, -1i8, -1i8, -1i8, 79u8) && row_entries_cover(6i8, 5i8, 9i8, 6i8, 9i8, 11i8, 11i8, 9i8, 8i8, -1i8, -1i8, -1i8, -1i8, -1i8, -1i8, -1i8, 79u8) && row_entries_oriented(6i8, 5i8, 9i8, 6i8, 9i8, 11i8, 11i8, 9i8, 8i8, -1i8, -1i8, -1i8, -1i8, -1i8, -1i8, -1i8, 79u8)
    ) by (bit_vector);
}

proof fn lemma_rows_checked_5()
    ensures
        row_checked(TRI_ROW_80, 80u8) && row_covers(TRI_ROW_80, 80u8) && row_oriented(TRI_ROW_80, 80u8),
        row_checked(TRI_ROW_81, 81u8) && row_covers(TRI_ROW_81, 81u8) && row_oriented(TRI_ROW_81, 81u8),
        row_checked(TRI_ROW_82, 82u8) && row_covers(TRI_ROW_82, 82u8) && row_oriented(TRI_ROW_82, 82u8),
        row_checked(TRI_ROW_83, 83u8) && row_covers(TRI_ROW_83, 83u8) && row_oriented(TRI_ROW_83, 83u8),
        row_checked(TRI_ROW_84, 84u8) && row_covers(TRI_ROW_84, 84u8) && row_oriented(TRI_ROW_84, 84u8),
        row_checked(TRI_ROW_85, 85u8) && row_covers(TRI_ROW_85, 85u8) && row_oriented(TRI_ROW_85, 85u8),
        row_checked(TRI_ROW_86, 86u8) && row_covers(TRI_ROW_86, 86u8) && row_oriented(TRI_ROW_86, 86u8),
        row_checked(TRI_ROW_87, 87u8) && row_covers(TRI_ROW_87, 87u8) && row_oriented(TRI_ROW_87, 87u8),
        row_checked(TRI_ROW_88, 88u8) && row_covers(TRI_ROW_88, 88u8) && row_oriented(TRI_ROW_88, 88u8),
        row_checked(TRI_ROW_89, 89u8) && row_covers(TRI_ROW_89, 89u8) && row_oriented(TRI_ROW_89, 89u8),
        row_checked(TRI_ROW_90, 90u8) && row_covers(TRI_ROW_90, 90u8) && row_oriented(TRI_ROW_90, 90u8),
        row_checked(TRI_ROW_91, 91u8) && row_covers(TRI_ROW_91, 91u8) && row_oriented(TRI_ROW_91, 91u8),
        row_checked(TRI_ROW_92, 92u8) && row_covers(TRI_ROW_92, 92u8) && row_oriented(TRI_ROW_92, 92u8),
        row_checked(TRI_ROW_93, 93u8) && row_covers(TRI_ROW_93, 93u8) && row_oriented(TRI_ROW_93, 93u8),
        row_checked(TRI_ROW_94, 94u8) && row_covers(TRI_ROW_94, 94u8) && row_oriented(TRI_ROW_94, 94u8),
        row_checked(TRI_ROW_95, 95u8) && row_covers(TRI_ROW_95, 95u8) && row_oriented(TRI_ROW_95, 95u8),
{
    assert(
        row_entries_checked(5i8, 10i8, 6i8, 4i8, 7i8, 8i8, -1i8, -1i8, -1i8, -1i8, -1i8, -1i8, -1i8, -1i8, -1i8, -1i8, 80u8) && row_entries_cover(5i8, 10i8, 6i8, 4i8, 7i8, 8i8, -1i8, -1i8, -1i8, -1i8, -1i8, -1i8, -1i8, -1i8, -1i8, -1i8, 80u8) && row_entries_oriented(5i8, 10i8, 6i8, 4i8, 7i8, 8i8, -1i8, -1i8, -1i8, -1i8, -1i8, -1i8, -1i8, -1i8, -1i8, -1i8, 80u8) &&
        row_entries_checked(4i8, 3i8, 0i8, 4i8, 7i8, 3i8, 6i8, 5i8, 10i8, -1i8, -1i8, -1i8, -1i8, -1i8, -1i8, -1i8, 81u8) && row_entries_cover(4i8, 3i8, 0i8, 4i8, 7i8, 3i8, 6i8, 5i8, 10i8, -1i8, -1i8, -1i8, -1i8, -1i8, -1i8, -1i8, 81u8) && row_entries_oriented(4i8, 3i8, 0i8, 4i8, 7i8, 3i8, 6i8, 5i8, 10i8, -1i8, -1i8, -1i8, -1i8, -1i8, -1i8, -1i8, 81u8) &&
        row_entries_checked(1i8, 9i8, 0i8, 5i8, 10i8, 6i8, 8i8, 4i8, 7i8, -1i8, -1i8, -1i8, -1i8, -1i8, -1i8, -1i8, 82u8) && row_entries_cover(1i8, 9i8, 0i8, 5i8, 10i8, 6i8, 8i8, 4i8, 7i8, -1i8, -1i8, -1i8, -1i8, -1i8, -1i8, -1i8, 82u8) && row_entries_oriented(1i8, 9i8, 0i8, 5i8, 10i8, 6i8, 8i8, 4i8, 7i8, -1i8, -1i8, -1i8, -1i8, -1i8, -1i8, -1i8, 82u8) &&
        row_entries_checked(10i8, 6i8, 5i8, 1i8, 9i8, 7i8, 1i8, 7i8, 3i8, 7i8, 9i8, 4i8, -1i8, -1i8, -1i8, -1i8, 83u8) && row_entries_cover(10i8, 6i8, 5i8, 1i8, 9i8, 7i8, 1i8, 7i8, 3i8, 7i8, 9i8, 4i8, -1i8, -1i8, -1i8, -1i8, 83u8) && row_entries_oriented(10i8, 6i8, 5i8, 1i8, 9i8, 7i8, 1i8, 7i8, 3i8, 7i8, 9i8, 4i8, -1i8, -1i8, -1i8, -1i8, 83u8) &&
        row_entries_checked(6i8, 1i8, 2i8, 6i8, 5i8, 1i8, 4i8, 7i8, 8i8, -1i8, -1i8, -1i8, -1i8, -1i8, -1i8, -1i8, 84u8) && row_entries_cover(6i8, 1i8, 2i8, 6i8, 5i8, 1i8, 4i8, 7i8, 8i8, -1i8, -1i8, -1i8, -1i8, -1i8, -1i8, -1i8, 84u8) && row_entries_oriented(6i8, 1i8, 2i8, 6i8, 5i8, 1i8, 4i8, 7i8, 8i8, -1i8, -1i8, -1i8, -1i8, -1i8, -1i8, -1i8, 84u8) &&
        row_entries_checked(1i8, 2i8, 5i8, 5i8, 2i8, 6i8, 3i8, 0i8, 4i8, 3i8, 4i8, 7i8, -1i8, -1i8, -1i8, -1i8, 85u8) && row_entries_cover(1i8, 2i8, 5i8, 5i8, 2i8, 6i8, 3i8, 0i8, 4i8, 3i8, 4i8, 7i8, -1i8, -1i8, -1i8, -1i8, 85u8) && row_entries_oriented(1i8, 2i8, 5i8, 5i8, 2i8, 6i8, 3i8, 0i8, 4i8, 3i8, 4i8, 7i8, -1i8, -1i8, -1i8, -1i8, 85u8) &&
        row_entries_checked(8i8, 4i8, 7i8, 9i8, 0i8, 5i8, 0i8, 6i8, 5i8, 0i8, 2i8, 6i8, -1i8, -1i8, -1i8, -1i8, 86u8) && row_entries_cover(8i8, 4i8, 7i8, 9i8, 0i8, 5i8, 0i8, 6i8, 5i8, 0i8, 2i8, 6i8, -1i8, -1i8, -1i8, -1i8, 86u8) && row_entries_oriented(8i8, 4i8, 7i8, 9i8, 0i8, 5i8, 0i8, 6i8, 5i8, 0i8, 2i8, 6i8, -1i8, -1i8, -1i8, -1i8, 86u8) &&
        row_entries_checked(7i8, 3i8, 9i8, 7i8, 9i8, 4i8, 3i8, 2i8, 9i8, 5i8, 9i8, 6i8, 2i8, 6i8, 9i8, -1i8, 87u8) && row_entries_cover(7i8, 3i8, 9i8, 7i8, 9i8, 4i8, 3i8, 2i8, 9i8, 5i8, 9i8, 6i8, 2i8, 6i8, 9i8, -1i8, 87u8) && row_entries_oriented(7i8, 3i8, 9i8, 7i8, 9i8, 4i8, 3i8, 2i8, 9i8, 5i8, 9i8, 6i8, 2i8, 6i8, 9i8, -1i8, 87u8) &&
        row_entries_checked(3i8, 11i8, 2i8, 7i8, 8i8, 4i8, 10i8, 6i8, 5i8, -1i8, -1i8, -1i8, -1i8, -1i8, -1i8, -1i8, 88u8) && row_entries_cover(3i8, 11i8, 2i8, 7i8, 8i8, 4i8, 10i8, 6i8, 5i8, -1i8, -1i8, -1i8, -1i8, -1i8, -1i8, -1i8, 88u8) && row_entries_oriented(3i8, 11i8, 2i8, 7i8, 8i8, 4i8, 10i8, 6i8, 5i8, -1i8, -1i8, -1i8, -1i8, -1i8, -1i8, -1i8, 88u8) &&
        row_entries_checked(5i8, 10i8, 6i8, 4i8, 7i8, 2i8, 4i8, 2i8, 0i8, 2i8, 7i8, 11i8, -1i8, -1i8, -1i8, -1i8, 89u8) && row_entries_cover(5i8, 10i8, 6i8, 4i8, 7i8, 2i8, 4i8, 2i8, 0i8, 2i8, 7i8, 11i8, -1i8, -1i8, -1i8, -1i8, 89u8) && row_entries_oriented(5i8, 10i8, 6i8, 4i8, 7i8, 2i8, 4i8, 2i8, 0i8, 2i8, 7i8, 11i8, -1i8, -1i8, -1i8, -1i8, 89u8) &&
        row_entries_checked(0i8, 1i8, 9i8, 4i8, 7i8, 8i8, 2i8, 3i8, 11i8, 5i8, 10i8, 6i8, -1i8, -1i8, -1i8, -1i8, 90u8) && row_entries_cover(0i8, 1i8, 9i8, 4i8, 7i8, 8i8, 2i8, 3i8, 11i8, 5i8, 10i8, 6i8, -1i8, -1i8, -1i8, -1i8, 90u8) && row_entries_oriented(0i8, 1i8, 9i8, 4i8, 7i8, 8i8, 2i8, 3i8, 11i8, 5i8, 10i8, 6i8, -1i8, -1i8, -1i8, -1i8, 90u8) &&
        row_entries_checked(9i8, 2i8, 1i8, 9i8, 11i8, 2i8, 9i8, 4i8, 11i8, 7i8, 11i8, 4i8, 5i8, 10i8, 6i8, -1i8, 91u8) && row_entries_cover(9i8, 2i8, 1i8, 9i8, 11i8, 2i8, 9i8, 4i8, 11i8, 7i8, 11i8, 4i8, 5i8, 10i8, 6i8, -1i8, 91u8) && row_entries_oriented(9i8, 2i8, 1i8, 9i8, 11i8, 2i8, 9i8, 4i8, 11i8, 7i8, 11i8, 4i8, 5i8, 10i8, 6i8, -1i8, 91u8) &&
        row_entries_checked(8i8, 4i8, 7i8, 3i8, 11i8, 5i8, 3i8, 5i8, 1i8, 5i8, 11i8, 6i8, -1i8, -1i8, -1i8, -1i8, 92u8) && row_entries_cover(8i8, 4i8, 7i8, 3i8, 11i8, 5i8, 3i8, 5i8, 1i8, 5i8, 11i8, 6i8, -1i8, -1i8, -1i8, -1i8, 92u8) && row_entries_oriented(8i8, 4i8, 7i8, 3i8, 11i8, 5i8, 3i8, 5i8, 1i8, 5i8, 11i8, 6i8, -1i8, -1i8, -1i8, -1i8, 92u8) &&
        row_entries_checked(5i8, 1i8, 11i8, 5i8, 11i8, 6i8, 1i8, 0i8, 11i8, 7i8, 11i8, 4i8, 0i8, 4i8, 11i8, -1i8, 93u8) && row_entries_cover(5i8, 1i8, 11i8, 5i8, 11i8, 6i8, 1i8, 0i8, 11i8, 7i8, 11i8, 4i8, 0i8, 4i8, 11i8, -1i8, 93u8) && row_entries_oriented(5i8, 1i8, 11i8, 5i8, 11i8, 6i8, 1i8, 0i8, 11i8, 7i8, 11i8, 4i8, 0i8, 4i8, 11i8, -1i8, 93u8) &&
        row_entries_checked(0i8, 5i8, 9i8, 0i8, 6i8, 5i8, 0i8, 3i8, 6i8, 11i8, 6i8, 3i8, 8i8, 4i8, 7i8, -1i8, 94u8) && row_entries_cover(0i8, 5i8, 9i8, 0i8, 6i8, 5i8, 0i8, 3i8, 6i8, 11i8, 6i8, 3i8, 8i8, 4i8, 7i8, -1i8, 94u8) && row_entries_oriented(0i8, 5i8, 9i8, 0i8, 6i8, 5i8, 0i8, 3i8, 6i8, 11i8, 6i8, 3i8, 8i8, 4i8, 7i8, -1i8, 94u8) &&
        row_entries_checked(6i8, 5i8, 9i8, 6i8, 9i8, 11i8, 4i8, 7i8, 9i8, 7i8, 11i8, 9i8, -1i8, -1i8, -1i8, -1i8, 95u8) && row_entries_cover(6i8, 5i8, 9i8, 6i8, 9i8, 11i8, 4i8, 7i8, 9i8, 7i8, 11i8, 9i8, -1i8, -1i8, -1i8, -1i8, 95u8) && row_entries_oriented(6i8, 5i8, 9i8, 6i8, 9i8, 11i8, 4i8, 7i8, 9i8, 7i8, 11i8, 9i8, -1i8, -1i8, -1i8, -1i8, 95u8)
    ) by (bit_vector);
}

proof fn lemma_rows_checked_6()
    ensures
        row_checked(TRI_ROW_96, 96u8) && row_covers(TRI_ROW_96, 96u8) && row_oriented(TRI_ROW_96, 96u8),
        row_checked(TRI_ROW_97, 97u8) && row_covers(TRI_ROW_97, 97u8) && row_oriented(TRI_ROW_97, 97u8),
        row_checked(TRI_ROW_98, 98u8) && row_covers(TRI_ROW_98, 98u8) && row_oriented(TRI_ROW_98, 98u8),
        row_checked(TRI_ROW_99, 99u8) && row_covers(TRI_ROW_99, 99u8) && row_oriented(TRI_ROW_99, 99u8),
        row_checked(TRI_ROW_100, 100u8) && row_covers(TRI_ROW_100, 100u8) && row_oriented(TRI_ROW_100, 100u8),
        row_checked(TRI_ROW_101, 101u8) && row_covers(TRI_ROW_101, 101u8) && row_oriented(TRI_ROW_101, 101u8),
        row_checked(TRI_ROW_102, 102u8) && row_covers(TRI_ROW_102, 102u8) && row_oriented(TRI_ROW_102, 102u8),
        row_checked(TRI_ROW_103, 103u8) && row_covers(TRI_ROW_103, 103u8) && row_oriented(TRI_ROW_103, 103u8),
        row_checked(TRI_ROW_104, 104u8) && row_covers(TRI_ROW_104, 104u8) && row_oriented(TRI_ROW_104, 104u8),
        row_checked(TRI_ROW_105, 105u8) && row_covers(TRI_ROW_105, 105u8) && row_oriented(TRI_ROW_105, 105u8),
        row_checked(TRI_ROW_106, 106u8) && row_covers(TRI_ROW_106, 106u8) && row_oriented(TRI_ROW_106, 106u8),
        row_checked(TRI_ROW_107, 107u8) && row_covers(TRI_ROW_107, 107u8) && row_oriented(TRI_ROW_107, 107u8),
        row_checked(TRI_ROW_108, 108u8) && row_covers(TRI_ROW_108, 108u8) && row_oriented(TRI_ROW_108, 108u8),
        row_checked(TRI_ROW_109, 109u8) && row_covers(TRI_ROW_109, 109u8) && row_oriented(TRI_ROW_109, 109u8),
        row_checked(TRI_ROW_110, 110u8) && row_covers(TRI_ROW_110, 110u8) && row_oriented(TRI_ROW_110, 110u8),
        row_checked(TRI_ROW_111, 111u8) && row_covers(TRI_ROW_111, 111u8) && row_oriented(TRI_ROW_111, 111u8),
{
    assert(
        row_entries_checked(10i8, 4i8, 9i8, 6i8, 4i8, 10i8, -1i8, -1i8, -1i8, -1i8, -1i8, -1i8, -1i8, -1i8, -1i8, -1i8, 96u8) && row_entries_cover(10i8, 4i8, 9i8, 6i8, 4i8, 10i8, -1i8, -1i8, -1i8, -1i8, -1i8, -1i8, -1i8, -1i8, -1i8, -1i8, 96u8) && row_entries_oriented(10i8, 4i8, 9i8, 6i8, 4i8, 10i8, -1i8, -1i8, -1i8, -1i8, -1i8, -1i8, -1i8, -1i8, -1i8, -1i8, 96u8) &&
        row_entries_checked(4i8, 10i8, 6i8, 4i8, 9i8, 10i8, 0i8, 8i8, 3i8, -1i8, -1i8, -1i8, -1i8, -1i8, -1i8, -1i8, 97u8) && row_entries_cover(4i8, 10i8, 6i8, 4i8, 9i8, 10i8, 0i8, 8i8, 3i8, -1i8, -1i8, -1i8, -1i8, -1i8, -1i8, -1i8, 97u8) && row_entries_oriented(4i8, 10i8, 6i8, 4i8, 9i8, 10i8, 0i8, 8i8, 3i8, -1i8, -1i8, -1i8, -1i8, -1i8, -1i8, -1i8, 97u8) &&
        row_entries_checked(10i8, 0i8, 1i8, 10i8, 6i8, 0i8, 6i8, 4i8, 0i8, -1i8, -1i8, -1i8, -1i8, -1i8, -1i8, -1i8, 98u8) && row_entries_cover(10i8, 0i8, 1i8, 10i8, 6i8, 0i8, 6i8, 4i8, 0i8, -1i8, -1i8, -1i8, -1i8, -1i8, -1i8, -1i8, 98u8) && row_entries_oriented(10i8, 0i8, 1i8, 10i8, 6i8, 0i8, 6i8, 4i8, 0i8, -1i8, -1i8, -1i8, -1i8, -1i8, -1i8, -1i8, 98u8) &&
        row_entries_checked(8i8, 3i8, 1i8, 8i8, 1i8, 6i8, 8i8, 6i8, 4i8, 6i8, 1i8, 10i8, -1i8, -1i8, -1i8, -1i8, 99u8) && row_entries_cover(8i8, 3i8, 1i8, 8i8, 1i8, 6i8, 8i8, 6i8, 4i8, 6i8, 1i8, 10i8, -1i8, -1i8, -1i8, -1i8, 99u8) && row_entries_oriented(8i8, 3i8, 1i8, 8i8, 1i8, 6i8, 8i8, 6i8, 4i8, 6i8, 1i8, 10i8, -1i8, -1i8, -1i8, -1i8, 99u8) &&
        row_entries_checked(1i8, 4i8, 9i8, 1i8, 2i8, 4i8, 2i8, 6i8, 4i8, -1i8, -1i8, -1i8, -1i8, -1i8, -1i8, -1i8, 100u8) && row_entries_cover(1i8, 4i8, 9i8, 1i8, 2i8, 4i8, 2i8, 6i8, 4i8, -1i8, -1i8, -1i8, -1i8, -1i8, -1i8, -1i8, 100u8) && row_entries_oriented(1i8, 4i8, 9i8, 1i8, 2i8, 4i8, 2i8, 6i8, 4i8, -1i8, -1i8, -1i8, -1i8, -1i8, -1i8, -1i8, 100u8) &&
        row_entries_checked(3i8, 0i8, 8i8, 1i8, 2i8, 9i8, 2i8, 4i8, 9i8, 2i8, 6i8, 4i8, -1i8, -1i8, -1i8, -1i8, 101u8) && row_entries_cover(3i8, 0i8, 8i8, 1i8, 2i8, 9i8, 2i8, 4i8, 9i8, 2i8, 6i8, 4i8, -1i8, -1i8, -1i8, -1i8, 101u8) && row_entries_oriented(3i8, 0i8, 8i8, 1i8, 2i8, 9i8, 2i8, 4i8, 9i8, 2i8, 6i8, 4i8, -1i8, -1i8, -1i8, -1i8, 101u8) &&
        row_entries_checked(0i8, 2i8, 4i8, 4i8, 2i8, 6i8, -1i8, -1i8, -1i8, -1i8, -1i8, -1i8, -1i8, -1i8, -1i8, -1i8, 102u8) && row_entries_cover(0i8, 2i8, 4i8, 4i8, 2i8, 6i8, -1i8, -1i8, -1i8, -1i8, -1i8, -1i8, -1i8, -1i8, -1i8, -1i8, 102u8) && row_entries_oriented(0i8, 2i8, 4i8, 4i8, 2i8, 6i8, -1i8, -1i8, -1i8, -1i8, -1i8, -1i8, -1i8, -1i8, -1i8, -1i8, 102u8) &&
        row_entries_checked(8i8, 3i8, 2i8, 8i8, 2i8, 4i8, 4i8, 2i8, 6i8, -1i8, -1i8, -1i8, -1i8, -1i8, -1i8, -1i8, 103u8) && row_entries_cover(8i8, 3i8, 2i8, 8i8, 2i8, 4i8, 4i8, 2i8, 6i8, -1i8, -1i8, -1i8, -1i8, -1i8, -1i8, -1i8, 103u8) && row_entries_oriented(8i8, 3i8, 2i8, 8i8, 2i8, 4i8, 4i8, 2i8, 6i8, -1i8, -1i8, -1i8, -1i8, -1i8, -1i8, -1i8, 103u8) &&
        row_entries_checked(10i8, 4i8, 9i8, 10i8, 6i8, 4i8, 11i8, 2i8, 3i8, -1i8, -1i8, -1i8, -1i8, -1i8, -1i8, -1i8, 104u8) && row_entries_cover(10i8, 4i8, 9i8, 10i8, 6i8, 4i8, 11i8, 2i8, 3i8, -1i8, -1i8, -1i8, -1i8, -1i8, -1i8, -1i8, 104u8) && row_entries_oriented(10i8, 4i8, 9i8, 10i8, 6i8, 4i8, 11i8, 2i8, 3i8, -1i8, -1i8, -1i8, -1i8, -1i8, -1i8, -1i8, 104u8) &&
        row_entries_checked(0i8, 8i8, 2i8, 2i8, 8i8, 11i8, 4i8, 9i8, 10i8, 4i8, 10i8, 6i8, -1i8, -1i8, -1i8, -1i8, 105u8) && row_entries_cover(0i8, 8i8, 2i8, 2i8, 8i8, 11i8, 4i8, 9i8, 10i8, 4i8, 10i8, 6i8, -1i8, -1i8, -1i8, -1i8, 105u8) && row_entries_oriented(0i8, 8i8, 2i8, 2i8, 8i8, 11i8, 4i8, 9i8, 10i8, 4i8, 10i8, 6i8, -1i8, -1i8, -1i8, -1i8, 105u8) &&
        row_entries_checked(3i8, 11i8, 2i8, 0i8, 1i8, 6i8, 0i8, 6i8, 4i8, 6i8, 1i8, 10i8, -1i8, -1i8, -1i8, -1i8, 106u8) && row_entries_cover(3i8, 11i8, 2i8, 0i8, 1i8, 6i8, 0i8, 6i8, 4i8, 6i8, 1i8, 10i8, -1i8, -1i8, -1i8, -1i8, 106u8) && row_entries_oriented(3i8, 11i8, 2i8, 0i8, 1i8, 6i8, 0i8, 6i8, 4i8, 6i8, 1i8, 10i8, -1i8, -1i8, -1i8, -1i8, 106u8) &&
        row_entries_checked(6i8, 4i8, 1i8, 6i8, 1i8, 10i8, 4i8, 8i8, 1i8, 2i8, 1i8, 11i8, 8i8, 11i8, 1i8, -1i8, 107u8) && row_entries_cover(6i8, 4i8, 1i8, 6i8, 1i8, 10i8, 4i8, 8i8, 1i8, 2i8, 1i8, 11i8, 8i8, 11i8, 1i8, -1i8, 107u8) && row_entries_oriented(6i8, 4i8, 1i8, 6i8, 1i8, 10i8, 4i8, 8i8, 1i8, 2i8, 1i8, 11i8, 8i8, 11i8, 1i8, -1i8, 107u8) &&
        row_entries_checked(9i8, 6i8, 4i8, 9i8, 3i8, 6i8, 9i8, 1i8, 3i8, 11i8, 6i8, 3i8, -1i8, -1i8, -1i8, -1i8, 108u8) && row_entries_cover(9i8, 6i8, 4i8, 9i8, 3i8, 6i8, 9i8, 1i8, 3i8, 11i8, 6i8, 3i8, -1i8, -1i8, -1i8, -1i8, 108u8) && row_entries_oriented(9i8, 6i8, 4i8, 9i8, 3i8, 6i8, 9i8, 1i8, 3i8, 11i8, 6i8, 3i8, -1i8, -1i8, -1i8, -1i8, 108u8) &&
        row_entries_checked(8i8, 11i8, 1i8, 8i8, 1i8, 0i8, 11i8, 6i8, 1i8, 9i8, 1i8, 4i8, 6i8, 4i8, 1i8, -1i8, 109u8) && row_entries_cover(8i8, 11i8, 1i8, 8i8, 1i8, 0i8, 11i8, 6i8, 1i8, 9i8, 1i8, 4i8, 6i8, 4i8, 1i8, -1i8, 109u8) && row_entries_oriented(8i8, 11i8, 1i8, 8i8, 1i8, 0i8, 11i8, 6i8, 1i8, 9i8, 1i8, 4i8, 6i8, 4i8, 1i8, -1i8, 109u8) &&
        row_entries_checked(3i8, 11i8, 6i8, 3i8, 6i8, 0i8, 0i8, 6i8, 4i8, -1i8, -1i8, -1i8, -1i8, -1i8, -1i8, -1i8, 110u8) && row_entries_cover(3i8, 11i8, 6i8, 3i8, 6i8, 0i8, 0i8, 6i8, 4i8, -1i8, -1i8, -1i8, -1i8, -1i8, -1i8, -1i8, 110u8) && row_entries_oriented(3i8, 11i8, 6i8, 3i8, 6i8, 0i8, 0i8, 6i8, 4i8, -1i8, -1i8, -1i8, -1i8, -1i8, -1i8, -1i8, 110u8) &&
        row_entries_checked(6i8, 4i8, 8i8, 11i8, 6i8, 8i8, -1i8, -1i8, -1i8, -1i8, -1i8, -1i8, -1i8, -1i8, -1i8, -1i8, 111u8) && row_entries_cover(6i8, 4i8, 8i8, 11i8, 6i8, 8i8, -1i8, -1i8, -1i8, -1i8, -1i8, -1i8, -1i8, -1i8, -1i8, -1i8, 111u8) && row_entries_oriented(6i8, 4i8, 8i8, 11i8, 6i8, 8i8, -1i8, -1i8, -1i8, -1i8, -1i8, -1i8, -1i8, -1i8, -1i8, -1i8, 111u8)
    ) by (bit_vector);
}

proof fn lemma_rows_checked_7()
    ensures
        row_checked(TRI_ROW_112, 112u8) && row_covers(TRI_ROW_112, 112u8) && row_oriented(TRI_ROW_112, 112u8),
        row_checked(TRI_ROW_113, 113u8) && row_covers(TRI_ROW_113, 113u8) && row_oriented(TRI_ROW_113, 113u8),
        row_checked(TRI_ROW_114, 114u8) && row_covers(TRI_ROW_114, 114u8) && row_oriented(TRI_ROW_114, 114u8),
        row_checked(TRI_ROW_115, 115u8) && row_covers(TRI_ROW_115, 115u8) && row_oriented(TRI_ROW_115, 115u8),
        row_checked(TRI_ROW_116, 116u8) && row_covers(TRI_ROW_116, 116u8) && row_oriented(TRI_ROW_116, 116u8),
        row_checked(TRI_ROW_117, 117u8) && row_covers(TRI_ROW_117, 117u8) && row_oriented(TRI_ROW_117, 117u8),
        row_checked(TRI_ROW_118, 118u8) && row_covers(TRI_ROW_118, 118u8) && row_oriented(TRI_ROW_118, 118u8),
        row_checked(TRI_ROW_119, 119u8) && row_covers(TRI_ROW_119, 119u8) && row_oriented(TRI_ROW_119, 119u8),
        row_checked(TRI_ROW_120, 120u8) && row_covers(TRI_ROW_120, 120u8) && row_oriented(TRI_ROW_120, 120u8),
        row_checked(TRI_ROW_121, 121u8) && row_covers(TRI_ROW_121, 121u8) && row_oriented(TRI_ROW_121, 121u8),
        row_checked(TRI_ROW_122, 122u8) && row_covers(TRI_ROW_122, 122u8) && row_oriented(TRI_ROW_122, 122u8),
        row_checked(TRI_ROW_123, 123u8) && row_covers(TRI_ROW_123, 123u8) && row_oriented(TRI_ROW_123, 123u8),
        row_checked(TRI_ROW_124, 124u8) && row_covers(TRI_ROW_124, 124u8) && row_oriented(TRI_ROW_124, 124u8),
        row_checked(TRI_ROW_125, 125u8) && row_covers(TRI_ROW_125, 125u8) && row_oriented(TRI_ROW_125, 125u8),
        row_checked(TRI_ROW_126, 126u8) && row_covers(TRI_ROW_126, 126u8) && row_oriented(TRI_ROW_126, 126u8),
        row_checked(TRI_ROW_127, 127u8) && row_covers(TRI_ROW_127, 127u8) && row_oriented(TRI_ROW_127, 127u8),
{
    assert(
        row_entries_checked(7i8, 10i8, 6i8, 7i8, 8i8, 10i8, 8i8, 9i8, 10i8, -1i8, -1i8, -1i8, -1i8, -1i8, -1i8, -1i8, 112u8) && row_entries_cover(7i8, 10i8, 6i8, 7i8, 8i8, 10i8, 8i8, 9i8, 10i8, -1i8, -1i8, -1i8, -1i8, -1i8, -1i8, -1i8, 112u8) && row_entries_oriented(7i8, 10i8, 6i8, 7i8, 8i8, 10i8, 8i8, 9i8, 10i8, -1i8, -1i8, -1i8, -1i8, -1i8, -1i8, -1i8, 112u8) &&
        row_entries_checked(0i8, 7i8, 3i8, 0i8, 10i8, 7i8, 0i8, 9i8, 10i8, 6i8, 7i8, 10i8, -1i8, -1i8, -1i8, -1i8, 113u8) && row_entries_cover(0i8, 7i8, 3i8, 0i8, 10i8, 7i8, 0i8, 9i8, 10i8, 6i8, 7i8, 10i8, -1i8, -1i8, -1i8, -1i8, 113u8) && row_entries_oriented(0i8, 7i8, 3i8, 0i8, 10i8, 7i8, 0i8, 9i8, 10i8, 6i8, 7i8, 10i8, -1i8, -1i8, -1i8, -1i8, 113u8) &&
        row_entries_checked(10i8, 6i8, 7i8, 1i8, 10i8, 7i8, 1i8, 7i8, 8i8, 1i8, 8i8, 0i8, -1i8, -1i8, -1i8, -1i8, 114u8) && row_entries_cover(10i8, 6i8, 7i8, 1i8, 10i8, 7i8, 1i8, 7i8, 8i8, 1i8, 8i8, 0i8, -1i8, -1i8, -1i8, -1i8, 114u8) && row_entries_oriented(10i8, 6i8, 7i8, 1i8, 10i8, 7i8, 1i8, 7i8, 8i8, 1i8, 8i8, 0i8, -1i8, -1i8, -1i8, -1i8, 114u8) &&
        row_entries_checked(10i8, 6i8, 7i8, 10i8, 7i8, 1i8, 1i8, 7i8, 3i8, -1i8, -1i8, -1i8, -1i8, -1i8, -1i8, -1i8, 115u8) && row_entries_cover(10i8, 6i8, 7i8, 10i8, 7i8, 1i8, 1i8, 7i8, 3i8, -1i8, -1i8, -1i8, -1i8, -1i8, -1i8, -1i8, 115u8) && row_entries_oriented(10i8, 6i8, 7i8, 10i8, 7i8, 1i8, 1i8, 7i8, 3i8, -1i8, -1i8, -1i8, -1i8, -1i8, -1i8, -1i8, 115u8) &&
        row_entries_checked(1i8, 2i8, 6i8, 1i8, 6i8, 8i8, 1i8, 8i8, 9i8, 8i8, 6i8, 7i8, -1i8, -1i8, -1i8, -1i8, 116u8) && row_entries_cover(1i8, 2i8, 6i8, 1i8, 6i8, 8i8, 1i8, 8i8, 9i8, 8i8, 6i8, 7i8, -1i8, -1i8, -1i8, -1i8, 116u8) && row_entries_oriented(1i8, 2i8, 6i8, 1i8, 6i8, 8i8, 1i8, 8i8, 9i8, 8i8, 6i8, 7i8, -1i8, -1i8, -1i8, -1i8, 116u8) &&
        row_entries_checked(2i8, 6i8, 9i8, 2i8, 9i8, 1i8, 6i8, 7i8, 9i8, 0i8, 9i8, 3i8, 7i8, 3i8, 9i8, -1i8, 117u8) && row_entries_cover(2i8, 6i8, 9i8, 2i8, 9i8, 1i8, 6i8, 7i8, 9i8, 0i8, 9i8, 3i8, 7i8, 3i8, 9i8, -1i8, 117u8) && row_entries_oriented(2i8, 6i8, 9i8, 2i8, 9i8, 1i8, 6i8, 7i8, 9i8, 0i8, 9i8, 3i8, 7i8, 3i8, 9i8, -1i8, 117u8) &&
        row_entries_checked(7i8, 8i8, 0i8, 7i8, 0i8, 6i8, 6i8, 0i8, 2i8, -1i8, -1i8, -1i8, -1i8, -1i8, -1i8, -1i8, 118u8) && row_entries_cover(7i8, 8i8, 0i8, 7i8, 0i8, 6i8, 6i8, 0i8, 2i8, -1i8, -1i8, -1i8, -1i8, -1i8, -1i8, -1i8, 118u8) && row_entries_oriented(7i8, 8i8, 0i8, 7i8, 0i8, 6i8, 6i8, 0i8, 2i8, -1i8, -1i8, -1i8, -1i8, -1i8, -1i8, -1i8, 118u8) &&
        row_entries_checked(7i8, 3i8, 2i8, 6i8, 7i8, 2i8, -1i8, -1i8, -1i8, -1i8, -1i8, -1i8, -1i8, -1i8, -1i8, -1i8, 119u8) && row_entries_cover(7i8, 3i8, 2i8, 6i8, 7i8, 2i8, -1i8, -1i8, -1i8, -1i8, -1i8, -1i8, -1i8, -1i8, -1i8, -1i8, 119u8) && row_entries_oriented(7i8, 3i8, 2i8, 6i8, 7i8, 2i8, -1i8, -1i8, -1i8, -1i8, -1i8, -1i8, -1i8, -1i8, -1i8, -1i8, 119u8) &&
        row_entries_checked(2i8, 3i8, 11i8, 10i8, 6i8, 8i8, 10i8, 8i8, 9i8, 8i8, 6i8, 7i8, -1i8, -1i8, -1i8, -1i8, 120u8) && row_entries_cover(2i8, 3i8, 11i8, 10i8, 6i8, 8i8, 10i8, 8i8, 9i8, 8i8, 6i8, 7i8, -1i8, -1i8, -1i8, -1i8, 120u8) && row_entries_oriented(2i8, 3i8, 11i8, 10i8, 6i8, 8i8, 10i8, 8i8, 9i8, 8i8, 6i8, 7i8, -1i8, -1i8, -1i8, -1i8, 120u8) &&
        row_entries_checked(2i8, 0i8, 7i8, 2i8, 7i8, 11i8, 0i8, 9i8, 7i8, 6i8, 7i8, 10i8, 9i8, 10i8, 7i8, -1i8, 121u8) && row_entries_cover(2i8, 0i8, 7i8, 2i8, 7i8, 11i8, 0i8, 9i8, 7i8, 6i8, 7i8, 10i8, 9i8, 10i8, 7i8, -1i8, 121u8) && row_entries_oriented(2i8, 0i8, 7i8, 2i8, 7i8, 11i8, 0i8, 9i8, 7i8, 6i8, 7i8, 10i8, 9i8, 10i8, 7i8, -1i8, 121u8) &&
        row_entries_checked(1i8, 8i8, 0i8, 1i8, 7i8, 8i8, 1i8, 10i8, 7i8, 6i8, 7i8, 10i8, 2i8, 3i8, 11i8, -1i8, 122u8) && row_entries_cover(1i8, 8i8, 0i8, 1i8, 7i8, 8i8, 1i8, 10i8, 7i8, 6i8, 7i8, 10i8, 2i8, 3i8, 11i8, -1i8, 122u8) && row_entries_oriented(1i8, 8i8, 0i8, 1i8, 7i8, 8i8, 1i8, 10i8, 7i8, 6i8, 7i8, 10i8, 2i8, 3i8, 11i8, -1i8, 122u8) &&
        row_entries_checked(11i8, 2i8, 1i8, 11i8, 1i8, 7i8, 10i8, 6i8, 1i8, 6i8, 7i8, 1i8, -1i8, -1i8, -1i8, -1i8, 123u8) && row_entries_cover(11i8, 2i8, 1i8, 11i8, 1i8, 7i8, 10i8, 6i8, 1i8, 6i8, 7i8, 1i8, -1i8, -1i8, -1i8, -1i8, 123u8) && row_entries_oriented(11i8, 2i8, 1i8, 11i8, 1i8, 7i8, 10i8, 6i8, 1i8, 6i8, 7i8, 1i8, -1i8, -1i8, -1i8, -1i8, 123u8) &&
        row_entries_checked(8i8, 9i8, 6i8, 8i8, 6i8, 7i8, 9i8, 1i8, 6i8, 11i8, 6i8, 3i8, 1i8, 3i8, 6i8, -1i8, 124u8) && row_entries_cover(8i8, 9i8, 6i8, 8i8, 6i8, 7i8, 9i8, 1i8, 6i8, 11i8, 6i8, 3i8, 1i8, 3i8, 6i8, -1i8, 124u8) && row_entries_oriented(8i8, 9i8, 6i8, 8i8, 6i8, 7i8, 9i8, 1i8, 6i8, 11i8, 6i8, 3i8, 1i8, 3i8, 6i8, -1i8, 124u8) &&
        row_entries_checked(0i8, 9i8, 1i8, 11i8, 6i8, 7i8, -1i8, -1i8, -1i8, -1i8, -1i8, -1i8, -1i8, -1i8, -1i8, -1i8, 125u8) && row_entries_cover(0i8, 9i8, 1i8, 11i8, 6i8, 7i8, -1i8, -1i8, -1i8, -1i8, -1i8, -1i8, -1i8, -1i8, -1i8, -1i8, 125u8) && row_entries_oriented(0i8, 9i8, 1i8, 11i8, 6i8, 7i8, -1i8, -1i8, -1i8, -1i8, -1i8, -1i8, -1i8, -1i8, -1i8, -1i8, 125u8) &&
        row_entries_checked(7i8, 8i8, 0i8, 7i8, 0i8, 6i8, 3i8, 11i8, 0i8, 11i8, 6i8, 0i8, -1i8, -1i8, -1i8, -1i8, 126u8) && row_entries_cover(7i8, 8i8, 0i8, 7i8, 0i8, 6i8, 3i8, 11i8, 0i8, 11i8, 6i8, 0i8, -1i8, -1i8, -1i8, -1i8, 126u8) && row_entries_oriented(7i8, 8i8, 0i8, 7i8, 0i8, 6i8, 3i8, 11i8, 0i8, 11i8, 6i8, 0i8, -1i8, -1i8, -1i8, -1i8, 126u8) &&
        row_entries_checked(7i8, 11i8, 6i8, -1i8, -1i8, -1i8, -1i8, -1i8, -1i8, -1i8, -1i8, -1i8, -1i8, -1i8, -1i8, -1i8, 127u8) && row_entries_cover(7i8, 11i8, 6i8, -1i8, -1i8, -1i8, -1i8, -1i8, -1i8, -1i8, -1i8, -1i8, -1i8, -1i8, -1i8, -1i8, 127u8) && row_entries_oriented(7i8, 11i8, 6i8, -1i8, -1i8, -1i8, -1i8, -1i8, -1i8, -1i8, -1i8, -1i8, -1i8, -1i8, -1i8, -1i8, 127u8)
    ) by (bit_vector);
}

proof fn lemma_rows_checked_8()
    ensures
        row_checked(TRI_ROW_128, 128u8) && row_covers(TRI_ROW_128, 128u8) && row_oriented(TRI_ROW_128, 128u8),
        row_checked(TRI_ROW_129, 129u8) && row_covers(TRI_ROW_129, 129u8) && row_oriented(TRI_ROW_129, 129u8),
        row_checked(TRI_ROW_130, 130u8) && row_covers(TRI_ROW_130, 130u8) && row_oriented(TRI_ROW_130, 130u8),
        row_checked(TRI_ROW_131, 131u8) && row_covers(TRI_ROW_131, 131u8) && row_oriented(TRI_ROW_131, 131u8),
        row_checked(TRI_ROW_132, 132u8) && row_covers(TRI_ROW_132, 132u8) && row_oriented(TRI_ROW_132, 132u8),
        row_checked(TRI_ROW_133, 133u8) && row_covers(TRI_ROW_133, 133u8) && row_oriented(TRI_ROW_133, 133u8),
        row_checked(TRI_ROW_134, 134u8) && row_covers(TRI_ROW_134, 134u8) && row_oriented(TRI_ROW_134, 134u8),
        row_checked(TRI_ROW_135, 135u8) && row_covers(TRI_ROW_135, 135u8) && row_oriented(TRI_ROW_135, 135u8),
        row_checked(TRI_ROW_136, 136u8) && row_covers(TRI_ROW_136, 136u8) && row_oriented(TRI_ROW_136, 136u8),
        row_checked(TRI_ROW_137, 137u8) && row_covers(TRI_ROW_137, 137u8) && row_oriented(TRI_ROW_137, 137u8),
        row_checked(TRI_ROW_138, 138u8) && row_covers(TRI_ROW_138, 138u8) && row_oriented(TRI_ROW_138, 138u8),
        row_checked(TRI_ROW_139, 139u8) && row_covers(TRI_ROW_139, 139u8) && row_oriented(TRI_ROW_139, 139u8),
        row_checked(TRI_ROW_140, 140u8) && row_covers(TRI_ROW_140, 140u8) && row_oriented(TRI_ROW_140, 140u8),
        row_checked(TRI_ROW_141, 141u8) && row_covers(TRI_ROW_141, 141u8) && row_oriented(TRI_ROW_141, 141u8),
        row_checked(TRI_ROW_142, 142u8) && row_covers(TRI_ROW_142, 142u8) && row_oriented(TRI_ROW_142, 142u8),
        row_checked(TRI_ROW_143, 143u8) && row_covers(TRI_ROW_143, 143u8) && row_oriented(TRI_ROW_143, 143u8),
{
    assert(
        row_entries_checked(7i8, 6i8, 11i8, -1i8, -1i8, -1i8, -1i8, -1i8, -1i8, -1i8, -1i8, -1i8, -1i8, -1i8, -1i8, -1i8, 128u8) && row_entries_cover(7i8, 6i8, 11i8, -1i8, -1i8, -1i8, -1i8, -1i8, -1i8, -1i8, -1i8, -1i8, -1i8, -1i8, -1i8, -1i8, 128u8) && row_entries_oriented(7i8, 6i8, 11i8, -1i8, -1i8, -1i8, -1i8, -1i8, -1i8, -1i8, -1i8, -1i8, -1i8, -1i8, -1i8, -1i8, 128u8) &&
        row_entries_checked(3i8, 0i8, 8i8, 11i8, 7i8, 6i8, -1i8, -1i8, -1i8, -1i8, -1i8, -1i8, -1i8, -1i8, -1i8, -1i8, 129u8) && row_entries_cover(3i8, 0i8, 8i8, 11i8, 7i8, 6i8, -1i8, -1i8, -1i8, -1i8, -1i8, -1i8, -1i8, -1i8, -1i8, -1i8, 129u8) && row_entries_oriented(3i8, 0i8, 8i8, 11i8, 7i8, 6i8, -1i8, -1i8, -1i8, -1i8, -1i8, -1i8, -1i8, -1i8, -1i8, -1i8, 129u8) &&
        row_entries_checked(0i8, 1i8, 9i8, 11i8, 7i8, 6i8, -1i8, -1i8, -1i8, -1i8, -1i8, -1i8, -1i8, -1i8, -1i8, -1i8, 130u8) && row_entries_cover(0i8, 1i8, 9i8, 11i8, 7i8, 6i8, -1i8, -1i8, -1i8, -1i8, -1i8, -1i8, -1i8, -1i8, -1i8, -1i8, 130u8) && row_entries_oriented(0i8, 1i8, 9i8, 11i8, 7i8, 6i8, -1i8, -1i8, -1i8, -1i8, -1i8, -1i8, -1i8, -1i8, -1i8, -1i8, 130u8) &&
        row_entries_checked(8i8, 1i8, 9i8, 8i8, 3i8, 1i8, 11i8, 7i8, 6i8, -1i8, -1i8, -1i8, -1i8, -1i8, -1i8, -1i8, 131u8) && row_entries_cover(8i8, 1i8, 9i8, 8i8, 3i8, 1i8, 11i8, 7i8, 6i8, -1i8, -1i8, -1i8, -1i8, -1i8, -1i8, -1i8, 131u8) && row_entries_oriented(8i8, 1i8, 9i8, 8i8, 3i8, 1i8, 11i8, 7i8, 6i8, -1i8, -1i8, -1i8, -1i8, -1i8, -1i8, -1i8, 131u8) &&
        row_entries_checked(10i8, 1i8, 2i8, 6i8, 11i8, 7i8, -1i8, -1i8, -1i8, -1i8, -1i8, -1i8, -1i8, -1i8, -1i8, -1i8, 132u8) && row_entries_cover(10i8, 1i8, 2i8, 6i8, 11i8, 7i8, -1i8, -1i8, -1i8, -1i8, -1i8, -1i8, -1i8, -1i8, -1i8, -1i8, 132u8) && row_entries_oriented(10i8, 1i8, 2i8, 6i8, 11i8, 7i8, -1i8, -1i8, -1i8, -1i8, -1i8, -1i8, -1i8, -1i8, -1i8, -1i8, 132u8) &&
        row_entries_checked(1i8, 2i8, 10i8, 3i8, 0i8, 8i8, 6i8, 11i8, 7i8, -1i8, -1i8, -1i8, -1i8, -1i8, -1i8, -1i8, 133u8) && row_entries_cover(1i8, 2i8, 10i8, 3i8, 0i8, 8i8, 6i8, 11i8, 7i8, -1i8, -1i8, -1i8, -1i8, -1i8, -1i8, -1i8, 133u8) && row_entries_oriented(1i8, 2i8, 10i8, 3i8, 0i8, 8i8, 6i8, 11i8, 7i8, -1i8, -1i8, -1i8, -1i8, -1i8, -1i8, -1i8, 133u8) &&
        row_entries_checked(2i8, 9i8, 0i8, 2i8, 10i8, 9i8, 6i8, 11i8, 7i8, -1i8, -1i8, -1i8, -1i8, -1i8, -1i8, -1i8, 134u8) && row_entries_cover(2i8, 9i8, 0i8, 2i8, 10i8, 9i8, 6i8, 11i8, 7i8, -1i8, -1i8, -1i8, -1i8, -1i8, -1i8, -1i8, 134u8) && row_entries_oriented(2i8, 9i8, 0i8, 2i8, 10i8, 9i8, 6i8, 11i8, 7i8, -1i8, -1i8, -1i8, -1i8, -1i8, -1i8, -1i8, 134u8) &&
        row_entries_checked(6i8, 11i8, 7i8, 2i8, 10i8, 3i8, 10i8, 8i8, 3i8, 10i8, 9i8, 8i8, -1i8, -1i8, -1i8, -1i8, 135u8) && row_entries_cover(6i8, 11i8, 7i8, 2i8, 10i8, 3i8, 10i8, 8i8, 3i8, 10i8, 9i8, 8i8, -1i8, -1i8, -1i8, -1i8, 135u8) && row_entries_oriented(6i8, 11i8, 7i8, 2i8, 10i8, 3i8, 10i8, 8i8, 3i8, 10i8, 9i8, 8i8, -1i8, -1i8, -1i8, -1i8, 135u8) &&
        row_entries_checked(7i8, 2i8, 3i8, 6i8, 2i8, 7i8, -1i8, -1i8, -1i8, -1i8, -1i8, -1i8, -1i8, -1i8, -1i8, -1i8, 136u8) && row_entries_cover(7i8, 2i8, 3i8, 6i8, 2i8, 7i8, -1i8, -1i8, -1i8, -1i8, -1i8, -1i8, -1i8, -1i8, -1i8, -1i8, 136u8) && row_entries_oriented(7i8, 2i8, 3i8, 6i8, 2i8, 7i8, -1i8, -1i8, -1i8, -1i8, -1i8, -1i8, -1i8, -1i8, -1i8, -1i8, 136u8) &&
        row_entries_checked(7i8, 0i8, 8i8, 7i8, 6i8, 0i8, 6i8, 2i8, 0i8, -1i8, -1i8, -1i8, -1i8, -1i8, -1i8, -1i8, 137u8) && row_entries_cover(7i8, 0i8, 8i8, 7i8, 6i8, 0i8, 6i8, 2i8, 0i8, -1i8, -1i8, -1i8, -1i8, -1i8, -1i8, -1i8, 137u8) && row_entries_oriented(7i8, 0i8, 8i8, 7i8, 6i8, 0i8, 6i8, 2i8, 0i8, -1i8, -1i8, -1i8, -1i8, -1i8, -1i8, -1i8, 137u8) &&
        row_entries_checked(2i8, 7i8, 6i8, 2i8, 3i8, 7i8, 0i8, 1i8, 9i8, -1i8, -1i8, -1i8, -1i8, -1i8, -1i8, -1i8, 138u8) && row_entries_cover(2i8, 7i8, 6i8, 2i8, 3i8, 7i8, 0i8, 1i8, 9i8, -1i8, -1i8, -1i8, -1i8, -1i8, -1i8, -1i8, 138u8) && row_entries_oriented(2i8, 7i8, 6i8, 2i8, 3i8, 7i8, 0i8, 1i8, 9i8, -1i8, -1i8, -1i8, -1i8, -1i8, -1i8, -1i8, 138u8) &&
        row_entries_checked(1i8, 6i8, 2i8, 1i8, 8i8, 6i8, 1i8, 9i8, 8i8, 8i8, 7i8, 6i8, -1i8, -1i8, -1i8, -1i8, 139u8) && row_entries_cover(1i8, 6i8, 2i8, 1i8, 8i8, 6i8, 1i8, 9i8, 8i8, 8i8, 7i8, 6i8, -1i8, -1i8, -1i8, -1i8, 139u8) && row_entries_oriented(1i8, 6i8, 2i8, 1i8, 8i8, 6i8, 1i8, 9i8, 8i8, 8i8, 7i8, 6i8, -1i8, -1i8, -1i8, -1i8, 139u8) &&
        row_entries_checked(10i8, 7i8, 6i8, 10i8, 1i8, 7i8, 1i8, 3i8, 7i8, -1i8, -1i8, -1i8, -1i8, -1i8, -1i8, -1i8, 140u8) && row_entries_cover(10i8, 7i8, 6i8, 10i8, 1i8, 7i8, 1i8, 3i8, 7i8, -1i8, -1i8, -1i8, -1i8, -1i8, -1i8, -1i8, 140u8) && row_entries_oriented(10i8, 7i8, 6i8, 10i8, 1i8, 7i8, 1i8, 3i8, 7i8, -1i8, -1i8, -1i8, -1i8, -1i8, -1i8, -1i8, 140u8) &&
        row_entries_checked(10i8, 7i8, 6i8, 1i8, 7i8, 10i8, 1i8, 8i8, 7i8, 1i8, 0i8, 8i8, -1i8, -1i8, -1i8, -1i8, 141u8) && row_entries_cover(10i8, 7i8, 6i8, 1i8, 7i8, 10i8, 1i8, 8i8, 7i8, 1i8, 0i8, 8i8, -1i8, -1i8, -1i8, -1i8, 141u8) && row_entries_oriented(10i8, 7i8, 6i8, 1i8, 7i8, 10i8, 1i8, 8i8, 7i8, 1i8, 0i8, 8i8, -1i8, -1i8, -1i8, -1i8, 141u8) &&
        row_entries_checked(0i8, 3i8, 7i8, 0i8, 7i8, 10i8, 0i8, 10i8, 9i8, 6i8, 10i8, 7i8, -1i8, -1i8, -1i8, -1i8, 142u8) && row_entries_cover(0i8, 3i8, 7i8, 0i8, 7i8, 10i8, 0i8, 10i8, 9i8, 6i8, 10i8, 7i8, -1i8, -1i8, -1i8, -1i8, 142u8) && row_entries_oriented(0i8, 3i8, 7i8, 0i8, 7i8, 10i8, 0i8, 10i8, 9i8, 6i8, 10i8, 7i8, -1i8, -1i8, -1i8, -1i8, 142u8) &&
        row_entries_checked(7i8, 6i8, 10i8, 7i8, 10i8, 8i8, 8i8, 10i8, 9i8, -1i8, -1i8, -1i8, -1i8, -1i8, -1i8, -1i8, 143u8) && row_entries_cover(7i8, 6i8, 10i8, 7i8, 10i8, 8i8, 8i8, 10i8, 9i8, -1i8, -1i8, -1i8, -1i8, -1i8, -1i8, -1i8, 143u8) && row_entries_oriented(7i8, 6i8, 10i8, 7i8, 10i8, 8i8, 8i8, 10i8, 9i8, -1i8, -1i8, -1i8, -1i8, -1i8, -1i8, -1i8, 143u8)
    ) by (bit_vector);
}

proof fn lemma_rows_checked_9()
    ensures
        row_checked(TRI_ROW_144, 144u8) && row_covers(TRI_ROW_144, 144u8) && row_oriented(TRI_ROW_144, 144u8),
        row_checked(TRI_ROW_145, 145u8) && row_covers(TRI_ROW_145, 145u8) && row_oriented(TRI_ROW_145, 145u8),
        row_checked(TRI_ROW_146, 146u8) && row_covers(TRI_ROW_146, 146u8) && row_oriented(TRI_ROW_146, 146u8),
        row_checked(TRI_ROW_147, 147u8) && row_covers(TRI_ROW_147, 147u8) && row_oriented(TRI_ROW_147, 147u8),
        row_checked(TRI_ROW_148, 148u8) && row_covers(TRI_ROW_148, 148u8) && row_oriented(TRI_ROW_148, 148u8),
        row_checked(TRI_ROW_149, 149u8) && row_covers(TRI_ROW_149, 149u8) && row_oriented(TRI_ROW_149, 149u8),
        row_checked(TRI_ROW_150, 150u8) && row_covers(TRI_ROW_150, 150u8) && row_oriented(TRI_ROW_150, 150u8),
        row_checked(TRI_ROW_151, 151u8) && row_covers(TRI_ROW_151, 151u8) && row_oriented(TRI_ROW_151, 151u8),
        row_checked(TRI_ROW_152, 152u8) && row_covers(TRI_ROW_152, 152u8) && row_oriented(TRI_ROW_152, 152u8),
        row_checked(TRI_ROW_153, 153u8) && row_covers(TRI_ROW_153, 153u8) && row_oriented(TRI_ROW_153, 153u8),
        row_checked(TRI_ROW_154, 154u8) && row_covers(TRI_ROW_154, 154u8) && row_oriented(TRI_ROW_154, 154u8),
        row_checked(TRI_ROW_155, 155u8) && row_covers(TRI_ROW_155, 155u8) && row_oriented(TRI_ROW_155, 155u8),
        row_checked(TRI_ROW_156, 156u8) && row_covers(TRI_ROW_156, 156u8) && row_oriented(TRI_ROW_156, 156u8),
        row_checked(TRI_ROW_157, 157u8) && row_covers(TRI_ROW_157, 157u8) && row_oriented(TRI_ROW_157, 157u8),
        row_checked(TRI_ROW_158, 158u8) && row_covers(TRI_ROW_158, 158u8) && row_oriented(TRI_ROW_158, 158u8),
        row_checked(TRI_ROW_159, 159u8) && row_covers(TRI_ROW_159, 159u8) && row_oriented(TRI_ROW_159, 159u8),
{
    assert(
        row_entries_checked(6i8, 8i8, 4i8, 11i8, 8i8, 6i8, -1i8, -1i8, -1i8, -1i8, -1i8, -1i8, -1i8, -1i8, -1i8, -1i8, 144u8) && row_entries_cover(6i8, 8i8, 4i8, 11i8, 8i8, 6i8, -1i8, -1i8, -1i8, -1i8, -1i8, -1i8, -1i8, -1i8, -1i8, -1i8, 144u8) && row_entries_oriented(6i8, 8i8, 4i8, 11i8, 8i8, 6i8, -1i8, -1i8, -1i8, -1i8, -1i8, -1i8, -1i8, -1i8, -1i8, -1i8, 144u8) &&
        row_entries_checked(3i8, 6i8, 11i8, 3i8, 0i8, 6i8, 0i8, 4i8, 6i8, -1i8, -1i8, -1i8, -1i8, -1i8, -1i8, -1i8, 145u8) && row_entries_cover(3i8, 6i8, 11i8, 3i8, 0i8, 6i8, 0i8, 4i8, 6i8, -1i8, -1i8, -1i8, -1i8, -1i8, -1i8, -1i8, 145u8) && row_entries_oriented(3i8, 6i8, 11i8, 3i8, 0i8, 6i8, 0i8, 4i8, 6i8, -1i8, -1i8, -1i8, -1i8, -1i8, -1i8, -1i8, 145u8) &&
        row_entries_checked(8i8, 6i8, 11i8, 8i8, 4i8, 6i8, 9i8, 0i8, 1i8, -1i8, -1i8, -1i8, -1i8, -1i8, -1i8, -1i8, 146u8) && row_entries_cover(8i8, 6i8, 11i8, 8i8, 4i8, 6i8, 9i8, 0i8, 1i8, -1i8, -1i8, -1i8, -1i8, -1i8, -1i8, -1i8, 146u8) && row_entries_oriented(8i8, 6i8, 11i8, 8i8, 4i8, 6i8, 9i8, 0i8, 1i8, -1i8, -1i8, -1i8, -1i8, -1i8, -1i8, -1i8, 146u8) &&
        row_entries_checked(9i8, 4i8, 6i8, 9i8, 6i8, 3i8, 9i8, 3i8, 1i8, 11i8, 3i8, 6i8, -1i8, -1i8, -1i8, -1i8, 147u8) && row_entries_cover(9i8, 4i8, 6i8, 9i8, 6i8, 3i8, 9i8, 3i8, 1i8, 11i8, 3i8, 6i8, -1i8, -1i8, -1i8, -1i8, 147u8) && row_entries_oriented(9i8, 4i8, 6i8, 9i8, 6i8, 3i8, 9i8, 3i8, 1i8, 11i8, 3i8, 6i8, -1i8, -1i8, -1i8, -1i8, 147u8) &&
        row_entries_checked(6i8, 8i8, 4i8, 6i8, 11i8, 8i8, 2i8, 10i8, 1i8, -1i8, -1i8, -1i8, -1i8, -1i8, -1i8, -1i8, 148u8) && row_entries_cover(6i8, 8i8, 4i8, 6i8, 11i8, 8i8, 2i8, 10i8, 1i8, -1i8, -1i8, -1i8, -1i8, -1i8, -1i8, -1i8, 148u8) && row_entries_oriented(6i8, 8i8, 4i8, 6i8, 11i8, 8i8, 2i8, 10i8, 1i8, -1i8, -1i8, -1i8, -1i8, -1i8, -1i8, -1i8, 148u8) &&
        row_entries_checked(1i8, 2i8, 10i8, 3i8, 0i8, 11i8, 0i8, 6i8, 11i8, 0i8, 4i8, 6i8, -1i8, -1i8, -1i8, -1i8, 149u8) && row_entries_cover(1i8, 2i8, 10i8, 3i8, 0i8, 11i8, 0i8, 6i8, 11i8, 0i8, 4i8, 6i8, -1i8, -1i8, -1i8, -1i8, 149u8) && row_entries_oriented(1i8, 2i8, 10i8, 3i8, 0i8, 11i8, 0i8, 6i8, 11i8, 0i8, 4i8, 6i8, -1i8, -1i8, -1i8, -1i8, 149u8) &&
        row_entries_checked(4i8, 11i8, 8i8, 4i8, 6i8, 11i8, 0i8, 2i8, 9i8, 2i8, 10i8, 9i8, -1i8, -1i8, -1i8, -1i8, 150u8) && row_entries_cover(4i8, 11i8, 8i8, 4i8, 6i8, 11i8, 0i8, 2i8, 9i8, 2i8, 10i8, 9i8, -1i8, -1i8, -1i8, -1i8, 150u8) && row_entries_oriented(4i8, 11i8, 8i8, 4i8, 6i8, 11i8, 0i8, 2i8, 9i8, 2i8, 10i8, 9i8, -1i8, -1i8, -1i8, -1i8, 150u8) &&
        row_entries_checked(10i8, 9i8, 3i8, 10i8, 3i8, 2i8, 9i8, 4i8, 3i8, 11i8, 3i8, 6i8, 4i8, 6i8, 3i8, -1i8, 151u8) && row_entries_cover(10i8, 9i8, 3i8, 10i8, 3i8, 2i8, 9i8, 4i8, 3i8, 11i8, 3i8, 6i8, 4i8, 6i8, 3i8, -1i8, 151u8) && row_entries_oriented(10i8, 9i8, 3i8, 10i8, 3i8, 2i8, 9i8, 4i8, 3i8, 11i8, 3i8, 6i8, 4i8, 6i8, 3i8, -1i8, 151u8) &&
        row_entries_checked(8i8, 2i8, 3i8, 8i8, 4i8, 2i8, 4i8, 6i8, 2i8, -1i8, -1i8, -1i8, -1i8, -1i8, -1i8, -1i8, 152u8) && row_entries_cover(8i8, 2i8, 3i8, 8i8, 4i8, 2i8, 4i8, 6i8, 2i8, -1i8, -1i8, -1i8, -1i8, -1i8, -1i8, -1i8, 152u8) && row_entries_oriented(8i8, 2i8, 3i8, 8i8, 4i8, 2i8, 4i8, 6i8, 2i8, -1i8, -1i8, -1i8, -1i8, -1i8, -1i8, -1i8, 152u8) &&
        row_entries_checked(0i8, 4i8, 2i8, 4i8, 6i8, 2i8, -1i8, -1i8, -1i8, -1i8, -1i8, -1i8, -1i8, -1i8, -1i8, -1i8, 153u8) && row_entries_cover(0i8, 4i8, 2i8, 4i8, 6i8, 2i8, -1i8, -1i8, -1i8, -1i8, -1i8, -1i8, -1i8, -1i8, -1i8, -1i8, 153u8) && row_entries_oriented(0i8, 4i8, 2i8, 4i8, 6i8, 2i8, -1i8, -1i8, -1i8, -1i8, -1i8, -1i8, -1i8, -1i8, -1i8, -1i8, 153u8) &&
        row_entries_checked(1i8, 9i8, 0i8, 2i8, 3i8, 4i8, 2i8, 4i8, 6i8, 4i8, 3i8, 8i8, -1i8, -1i8, -1i8, -1i8, 154u8) && row_entries_cover(1i8, 9i8, 0i8, 2i8, 3i8, 4i8, 2i8, 4i8, 6i8, 4i8, 3i8, 8i8, -1i8, -1i8, -1i8, -1i8, 154u8) && row_entries_oriented(1i8, 9i8, 0i8, 2i8, 3i8, 4i8, 2i8, 4i8, 6i8, 4i8, 3i8, 8i8, -1i8, -1i8, -1i8, -1i8, 154u8) &&
        row_entries_checked(1i8, 9i8, 4i8, 1i8, 4i8, 2i8, 2i8, 4i8, 6i8, -1i8, -1i8, -1i8, -1i8, -1i8, -1i8, -1i8, 155u8) && row_entries_cover(1i8, 9i8, 4i8, 1i8, 4i8, 2i8, 2i8, 4i8, 6i8, -1i8, -1i8, -1i8, -1i8, -1i8, -1i8, -1i8, 155u8) && row_entries_oriented(1i8, 9i8, 4i8, 1i8, 4i8, 2i8, 2i8, 4i8, 6i8, -1i8, -1i8, -1i8, -1i8, -1i8, -1i8, -1i8, 155u8) &&
        row_entries_checked(8i8, 1i8, 3i8, 8i8, 6i8, 1i8, 8i8, 4i8, 6i8, 6i8, 10i8, 1i8, -1i8, -1i8, -1i8, -1i8, 156u8) && row_entries_cover(8i8, 1i8, 3i8, 8i8, 6i8, 1i8, 8i8, 4i8, 6i8, 6i8, 10i8, 1i8, -1i8, -1i8, -1i8, -1i8, 156u8) && row_entries_oriented(8i8, 1i8, 3i8, 8i8, 6i8, 1i8, 8i8, 4i8, 6i8, 6i8, 10i8, 1i8, -1i8, -1i8, -1i8, -1i8, 156u8) &&
        row_entries_checked(10i8, 1i8, 0i8, 10i8, 0i8, 6i8, 6i8, 0i8, 4i8, -1i8, -1i8, -1i8, -1i8, -1i8, -1i8, -1i8, 157u8) && row_entries_cover(10i8, 1i8, 0i8, 10i8, 0i8, 6i8, 6i8, 0i8, 4i8, -1i8, -1i8, -1i8, -1i8, -1i8, -1i8, -1i8, 157u8) && row_entries_oriented(10i8, 1i8, 0i8, 10i8, 0i8, 6i8, 6i8, 0i8, 4i8, -1i8, -1i8, -1i8, -1i8, -1i8, -1i8, -1i8, 157u8) &&
        row_entries_checked(4i8, 6i8, 3i8, 4i8, 3i8, 8i8, 6i8, 10i8, 3i8, 0i8, 3i8, 9i8, 10i8, 9i8, 3i8, -1i8, 158u8) && row_entries_cover(4i8, 6i8, 3i8, 4i8, 3i8, 8i8, 6i8, 10i8, 3i8, 0i8, 3i8, 9i8, 10i8, 9i8, 3i8, -1i8, 158u8) && row_entries_oriented(4i8, 6i8, 3i8, 4i8, 3i8, 8i8, 6i8, 10i8, 3i8, 0i8, 3i8, 9i8, 10i8, 9i8, 3i8, -1i8, 158u8) &&
        row_entries_checked(10i8, 9i8, 4i8, 6i8, 10i8, 4i8, -1i8, -1i8, -1i8, -1i8, -1i8, -1i8, -1i8, -1i8, -1i8, -1i8, 159u8) && row_entries_cover(10i8, 9i8, 4i8, 6i8, 10i8, 4i8, -1i8, -1i8, -1i8, -1i8, -1i8, -1i8, -1i8, -1i8, -1i8, -1i8, 159u8) && row_entries_oriented(10i8, 9i8, 4i8, 6i8, 10i8, 4i8, -1i8, -1i8, -1i8, -1i8, -1i8, -1i8, -1i8, -1i8, -1i8, -1i8, 159u8)
    ) by (bit_vector);
}

proof fn lemma_rows_checked_10()
    ensures
        row_checked(TRI_ROW_160, 160u8) && row_covers(TRI_ROW_160, 160u8) && row_oriented(TRI_ROW_160, 160u8),
        row_checked(TRI_ROW_161, 161u8) && row_covers(TRI_ROW_161, 161u8) && row_oriented(TRI_ROW_161, 161u8),
        row_checked(TRI_ROW_162, 162u8) && row_covers(TRI_ROW_162, 162u8) && row_oriented(TRI_ROW_162, 162u8),
        row_checked(TRI_ROW_163, 163u8) && row_covers(TRI_ROW_163, 163u8) && row_oriented(TRI_ROW_163, 163u8),
        row_checked(TRI_ROW_164, 164u8) && row_covers(TRI_ROW_164, 164u8) && row_oriented(TRI_ROW_164, 164u8),
        row_checked(TRI_ROW_165, 165u8) && row_covers(TRI_ROW_165, 165u8) && row_oriented(TRI_ROW_165, 165u8),
        row_checked(TRI_ROW_166, 166u8) && row_covers(TRI_ROW_166, 166u8) && row_oriented(TRI_ROW_166, 166u8),
        row_checked(TRI_ROW_167, 167u8) && row_covers(TRI_ROW_167, 167u8) && row_oriented(TRI_ROW_167, 167u8),
        row_checked(TRI_ROW_168, 168u8) && row_covers(TRI_ROW_168, 168u8) && row_oriented(TRI_ROW_168, 168u8),
        row_checked(TRI_ROW_169, 169u8) && row_covers(TRI_ROW_169, 169u8) && row_oriented(TRI_ROW_169, 169u8),
        row_checked(TRI_ROW_170, 170u8) && row_covers(TRI_ROW_170, 170u8) && row_oriented(TRI_ROW_170, 170u8),
        row_checked(TRI_ROW_171, 171u8) && row_covers(TRI_ROW_171, 171u8) && row_oriented(TRI_ROW_171, 171u8),
        row_checked(TRI_ROW_172, 172u8) && row_covers(TRI_ROW_172, 172u8) && row_oriented(TRI_ROW_172, 172u8),
        row_checked(TRI_ROW_173, 173u8) && row_covers(TRI_ROW_173, 173u8) && row_oriented(TRI_ROW_173, 173u8),
        row_checked(TRI_ROW_174, 174u8) && row_covers(TRI_ROW_174, 174u8) && row_oriented(TRI_ROW_174, 174u8),
        row_checked(TRI_ROW_175, 175u8) && row_covers(TRI_ROW_175, 175u8) && row_oriented(TRI_ROW_175, 175u8),
{
    assert(
        row_entries_checked(4i8, 9i8, 5i8, 7i8, 6i8, 11i8, -1i8, -1i8, -1i8, -1i8, -1i8, -1i8, -1i8, -1i8, -1i8, -1i8, 160u8) && row_entries_cover(4i8, 9i8, 5i8, 7i8, 6i8, 11i8, -1i8, -1i8, -1i8, -1i8, -1i8, -1i8, -1i8, -1i8, -1i8, -1i8, 160u8) && row_entries_oriented(4i8, 9i8, 5i8, 7i8, 6i8, 11i8, -1i8, -1i8, -1i8, -1i8, -1i8, -1i8, -1i8, -1i8, -1i8, -1i8, 160u8) &&
        row_entries_checked(0i8, 8i8, 3i8, 4i8, 9i8, 5i8, 11i8, 7i8, 6i8, -1i8, -1i8, -1i8, -1i8, -1i8, -1i8, -1i8, 161u8) && row_entries_cover(0i8, 8i8, 3i8, 4i8, 9i8, 5i8, 11i8, 7i8, 6i8, -1i8, -1i8, -1i8, -1i8, -1i8, -1i8, -1i8, 161u8) && row_entries_oriented(0i8, 8i8, 3i8, 4i8, 9i8, 5i8, 11i8, 7i8, 6i8, -1i8, -1i8, -1i8, -1i8, -1i8, -1i8, -1i8, 161u8) &&
        row_entries_checked(5i8, 0i8, 1i8, 5i8, 4i8, 0i8, 7i8, 6i8, 11i8, -1i8, -1i8, -1i8, -1i8, -1i8, -1i8, -1i8, 162u8) && row_entries_cover(5i8, 0i8, 1i8, 5i8, 4i8, 0i8, 7i8, 6i8, 11i8, -1i8, -1i8, -1i8, -1i8, -1i8, -1i8, -1i8, 162u8) && row_entries_oriented(5i8, 0i8, 1i8, 5i8, 4i8, 0i8, 7i8, 6i8, 11i8, -1i8, -1i8, -1i8, -1i8, -1i8, -1i8, -1i8, 162u8) &&
        row_entries_checked(11i8, 7i8, 6i8, 8i8, 3i8, 4i8, 3i8, 5i8, 4i8, 3i8, 1i8, 5i8, -1i8, -1i8, -1i8, -1i8, 163u8) && row_entries_cover(11i8, 7i8, 6i8, 8i8, 3i8, 4i8, 3i8, 5i8, 4i8, 3i8, 1i8, 5i8, -1i8, -1i8, -1i8, -1i8, 163u8) && row_entries_oriented(11i8, 7i8, 6i8, 8i8, 3i8, 4i8, 3i8, 5i8, 4i8, 3i8, 1i8, 5i8, -1i8, -1i8, -1i8, -1i8, 163u8) &&
        row_entries_checked(9i8, 5i8, 4i8, 10i8, 1i8, 2i8, 7i8, 6i8, 11i8, -1i8, -1i8, -1i8, -1i8, -1i8, -1i8, -1i8, 164u8) && row_entries_cover(9i8, 5i8, 4i8, 10i8, 1i8, 2i8, 7i8, 6i8, 11i8, -1i8, -1i8, -1i8, -1i8, -1i8, -1i8, -1i8, 164u8) && row_entries_oriented(9i8, 5i8, 4i8, 10i8, 1i8, 2i8, 7i8, 6i8, 11i8, -1i8, -1i8, -1i8, -1i8, -1i8, -1i8, -1i8, 164u8) &&
        row_entries_checked(6i8, 11i8, 7i8, 1i8, 2i8, 10i8, 0i8, 8i8, 3i8, 4i8, 9i8, 5i8, -1i8, -1i8, -1i8, -1i8, 165u8) && row_entries_cover(6i8, 11i8, 7i8, 1i8, 2i8, 10i8, 0i8, 8i8, 3i8, 4i8, 9i8, 5i8, -1i8, -1i8, -1i8, -1i8, 165u8) && row_entries_oriented(6i8, 11i8, 7i8, 1i8, 2i8, 10i8, 0i8, 8i8, 3i8, 4i8, 9i8, 5i8, -1i8, -1i8, -1i8, -1i8, 165u8) &&
        row_entries_checked(7i8, 6i8, 11i8, 5i8, 4i8, 10i8, 4i8, 2i8, 10i8, 4i8, 0i8, 2i8, -1i8, -1i8, -1i8, -1i8, 166u8) && row_entries_cover(7i8, 6i8, 11i8, 5i8, 4i8, 10i8, 4i8, 2i8, 10i8, 4i8, 0i8, 2i8, -1i8, -1i8, -1i8, -1i8, 166u8) && row_entries_oriented(7i8, 6i8, 11i8, 5i8, 4i8, 10i8, 4i8, 2i8, 10i8, 4i8, 0i8, 2i8, -1i8, -1i8, -1i8, -1i8, 166u8) &&
        row_entries_checked(3i8, 4i8, 8i8, 3i8, 5i8, 4i8, 3i8, 2i8, 5i8, 10i8, 5i8, 2i8, 11i8, 7i8, 6i8, -1i8, 167u8) && row_entries_cover(3i8, 4i8, 8i8, 3i8, 5i8, 4i8, 3i8, 2i8, 5i8, 10i8, 5i8, 2i8, 11i8, 7i8, 6i8, -1i8, 167u8) && row_entries_oriented(3i8, 4i8, 8i8, 3i8, 5i8, 4i8, 3i8, 2i8, 5i8, 10i8, 5i8, 2i8, 11i8, 7i8, 6i8, -1i8, 167u8) &&
        row_entries_checked(7i8, 2i8, 3i8, 7i8, 6i8, 2i8, 5i8, 4i8, 9i8, -1i8, -1i8, -1i8, -1i8, -1i8, -1i8, -1i8, 168u8) && row_entries_cover(7i8, 2i8, 3i8, 7i8, 6i8, 2i8, 5i8, 4i8, 9i8, -1i8, -1i8, -1i8, -1i8, -1i8, -1i8, -1i8, 168u8) && row_entries_oriented(7i8, 2i8, 3i8, 7i8, 6i8, 2i8, 5i8, 4i8, 9i8, -1i8, -1i8, -1i8, -1i8, -1i8, -1i8, -1i8, 168u8) &&
        row_entries_checked(9i8, 5i8, 4i8, 0i8, 8i8, 6i8, 0i8, 6i8, 2i8, 6i8, 8i8, 7i8, -1i8, -1i8, -1i8, -1i8, 169u8) && row_entries_cover(9i8, 5i8, 4i8, 0i8, 8i8, 6i8, 0i8, 6i8, 2i8, 6i8, 8i8, 7i8, -1i8, -1i8, -1i8, -1i8, 169u8) && row_entries_oriented(9i8, 5i8, 4i8, 0i8, 8i8, 6i8, 0i8, 6i8, 2i8, 6i8, 8i8, 7i8, -1i8, -1i8, -1i8, -1i8, 169u8) &&
        row_entries_checked(3i8, 6i8, 2i8, 3i8, 7i8, 6i8, 1i8, 5i8, 0i8, 5i8, 4i8, 0i8, -1i8, -1i8, -1i8, -1i8, 170u8) && row_entries_cover(3i8, 6i8, 2i8, 3i8, 7i8, 6i8, 1i8, 5i8, 0i8, 5i8, 4i8, 0i8, -1i8, -1i8, -1i8, -1i8, 170u8) && row_entries_oriented(3i8, 6i8, 2i8, 3i8, 7i8, 6i8, 1i8, 5i8, 0i8, 5i8, 4i8, 0i8, -1i8, -1i8, -1i8, -1i8, 170u8) &&
        row_entries_checked(6i8, 2i8, 8i8, 6i8, 8i8, 7i8, 2i8, 1i8, 8i8, 4i8, 8i8, 5i8, 1i8, 5i8, 8i8, -1i8, 171u8) && row_entries_cover(6i8, 2i8, 8i8, 6i8, 8i8, 7i8, 2i8, 1i8, 8i8, 4i8, 8i8, 5i8, 1i8, 5i8, 8i8, -1i8, 171u8) && row_entries_oriented(6i8, 2i8, 8i8, 6i8, 8i8, 7i8, 2i8, 1i8, 8i8, 4i8, 8i8, 5i8, 1i8, 5i8, 8i8, -1i8, 171u8) &&
        row_entries_checked(9i8, 5i8, 4i8, 10i8, 1i8, 6i8, 1i8, 7i8, 6i8, 1i8, 3i8, 7i8, -1i8, -1i8, -1i8, -1i8, 172u8) && row_entries_cover(9i8, 5i8, 4i8, 10i8, 1i8, 6i8, 1i8, 7i8, 6i8, 1i8, 3i8, 7i8, -1i8, -1i8, -1i8, -1i8, 172u8) && row_entries_oriented(9i8, 5i8, 4i8, 10i8, 1i8, 6i8, 1i8, 7i8, 6i8, 1i8, 3i8, 7i8, -1i8, -1i8, -1i8, -1i8, 172u8) &&
        row_entries_checked(1i8, 6i8, 10i8, 1i8, 7i8, 6i8, 1i8, 0i8, 7i8, 8i8, 7i8, 0i8, 9i8, 5i8, 4i8, -1i8, 173u8) && row_entries_cover(1i8, 6i8, 10i8, 1i8, 7i8, 6i8, 1i8, 0i8, 7i8, 8i8, 7i8, 0i8, 9i8, 5i8, 4i8, -1i8, 173u8) && row_entries_oriented(1i8, 6i8, 10i8, 1i8, 7i8, 6i8, 1i8, 0i8, 7i8, 8i8, 7i8, 0i8, 9i8, 5i8, 4i8, -1i8, 173u8) &&
        row_entries_checked(4i8, 0i8, 10i8, 4i8, 10i8, 5i8, 0i8, 3i8, 10i8, 6i8, 10i8, 7i8, 3i8, 7i8, 10i8, -1i8, 174u8) && row_entries_cover(4i8, 0i8, 10i8, 4i8, 10i8, 5i8, 0i8, 3i8, 10i8, 6i8, 10i8, 7i8, 3i8, 7i8, 10i8, -1i8, 174u8) && row_entries_oriented(4i8, 0i8, 10i8, 4i8, 10i8, 5i8, 0i8, 3i8, 10i8, 6i8, 10i8, 7i8, 3i8, 7i8, 10i8, -1i8, 174u8) &&
        row_entries_checked(7i8, 6i8, 10i8, 7i8, 10i8, 8i8, 5i8, 4i8, 10i8, 4i8, 8i8, 10i8, -1i8, -1i8, -1i8, -1i8, 175u8) && row_entries_cover(7i8, 6i8, 10i8, 7i8, 10i8, 8i8, 5i8, 4i8, 10i8, 4i8, 8i8, 10i8, -1i8, -1i8, -1i8, -1i8, 175u8) && row_entries_oriented(7i8, 6i8, 10i8, 7i8, 10i8, 8i8, 5i8, 4i8, 10i8, 4i8, 8i8, 10i8, -1i8, -1i8, -1i8, -1i8, 175u8)
    ) by (bit_vector);
}

proof fn lemma_rows_checked_11()
    ensures
        row_checked(TRI_ROW_176, 176u8) && row_covers(TRI_ROW_176, 176u8) && row_oriented(TRI_ROW_176, 176u8),
        row_checked(TRI_ROW_177, 177u8) && row_covers(TRI_ROW_177, 177u8) && row_oriented(TRI_ROW_177, 177u8),
        row_checked(TRI_ROW_178, 178u8) && row_covers(TRI_ROW_178, 178u8) && row_oriented(TRI_ROW_178, 178u8),
        row_checked(TRI_ROW_179, 179u8) && row_covers(TRI_ROW_179, 179u8) && row_oriented(TRI_ROW_179, 179u8),
        row_checked(TRI_ROW_180, 180u8) && row_covers(TRI_ROW_180, 180u8) && row_oriented(TRI_ROW_180, 180u8),
        row_checked(TRI_ROW_181, 181u8) && row_covers(TRI_ROW_181, 181u8) && row_oriented(TRI_ROW_181, 181u8),
        row_checked(TRI_ROW_182, 182u8) && row_covers(TRI_ROW_182, 182u8) && row_oriented(TRI_ROW_182, 182u8),
        row_checked(TRI_ROW_183, 183u8) && row_covers(TRI_ROW_183, 183u8) && row_oriented(TRI_ROW_183, 183u8),
        row_checked(TRI_ROW_184, 184u8) && row_covers(TRI_ROW_184, 184u8) && row_oriented(TRI_ROW_184, 184u8),
        row_checked(TRI_ROW_185, 185u8) && row_covers(TRI_ROW_185, 185u8) && row_oriented(TRI_ROW_185, 185u8),
        row_checked(TRI_ROW_186, 186u8) && row_covers(TRI_ROW_186, 186u8) && row_oriented(TRI_ROW_186, 186u8),
        row_checked(TRI_ROW_187, 187u8) && row_covers(TRI_ROW_187, 187u8) && row_oriented(TRI_ROW_187, 187u8),
        row_checked(TRI_ROW_188, 188u8) && row_covers(TRI_ROW_188, 188u8) && row_oriented(TRI_ROW_188, 188u8),
        row_checked(TRI_ROW_189, 189u8) && row_covers(TRI_ROW_189, 189u8) && row_oriented(TRI_ROW_189, 189u8),
        row_checked(TRI_ROW_190, 190u8) && row_covers(TRI_ROW_190, 190u8) && row_oriented(TRI_ROW_190, 190u8),
        row_checked(TRI_ROW_191, 191u8) && row_covers(TRI_ROW_191, 191u8) && row_oriented(TRI_ROW_191, 191u8),
{
    assert(
        row_entries_checked(6i8, 9i8, 5i8, 6i8, 11i8, 9i8, 11i8, 8i8, 9i8, -1i8, -1i8, -1i8, -1i8, -1i8, -1i8, -1i8, 176u8) && row_entries_cover(6i8, 9i8, 5i8, 6i8, 11i8, 9i8, 11i8, 8i8, 9i8, -1i8, -1i8, -1i8, -1i8, -1i8, -1i8, -1i8, 176u8) && row_entries_oriented(6i8, 9i8, 5i8, 6i8, 11i8, 9i8, 11i8, 8i8, 9i8, -1i8, -1i8, -1i8, -1i8, -1i8, -1i8, -1i8, 176u8) &&
        row_entries_checked(3i8, 6i8, 11i8, 0i8, 6i8, 3i8, 0i8, 5i8, 6i8, 0i8, 9i8, 5i8, -1i8, -1i8, -1i8, -1i8, 177u8) && row_entries_cover(3i8, 6i8, 11i8, 0i8, 6i8, 3i8, 0i8, 5i8, 6i8, 0i8, 9i8, 5i8, -1i8, -1i8, -1i8, -1i8, 177u8) && row_entries_oriented(3i8, 6i8, 11i8, 0i8, 6i8, 3i8, 0i8, 5i8, 6i8, 0i8, 9i8, 5i8, -1i8, -1i8, -1i8, -1i8, 177u8) &&
        row_entries_checked(0i8, 11i8, 8i8, 0i8, 5i8, 11i8, 0i8, 1i8, 5i8, 5i8, 6i8, 11i8, -1i8, -1i8, -1i8, -1i8, 178u8) && row_entries_cover(0i8, 11i8, 8i8, 0i8, 5i8, 11i8, 0i8, 1i8, 5i8, 5i8, 6i8, 11i8, -1i8, -1i8, -1i8, -1i8, 178u8) && row_entries_oriented(0i8, 11i8, 8i8, 0i8, 5i8, 11i8, 0i8, 1i8, 5i8, 5i8, 6i8, 11i8, -1i8, -1i8, -1i8, -1i8, 178u8) &&
        row_entries_checked(6i8, 11i8, 3i8, 6i8, 3i8, 5i8, 5i8, 3i8, 1i8, -1i8, -1i8, -1i8, -1i8, -1i8, -1i8, -1i8, 179u8) && row_entries_cover(6i8, 11i8, 3i8, 6i8, 3i8, 5i8, 5i8, 3i8, 1i8, -1i8, -1i8, -1i8, -1i8, -1i8, -1i8, -1i8, 179u8) && row_entries_oriented(6i8, 11i8, 3i8, 6i8, 3i8, 5i8, 5i8, 3i8, 1i8, -1i8, -1i8, -1i8, -1i8, -1i8, -1i8, -1i8, 179u8) &&
        row_entries_checked(1i8, 2i8, 10i8, 9i8, 5i8, 11i8, 9i8, 11i8, 8i8, 11i8, 5i8, 6i8, -1i8, -1i8, -1i8, -1i8, 180u8) && row_entries_cover(1i8, 2i8, 10i8, 9i8, 5i8, 11i8, 9i8, 11i8, 8i8, 11i8, 5i8, 6i8, -1i8, -1i8, -1i8, -1i8, 180u8) && row_entries_oriented(1i8, 2i8, 10i8, 9i8, 5i8, 11i8, 9i8, 11i8, 8i8, 11i8, 5i8, 6i8, -1i8, -1i8, -1i8, -1i8, 180u8) &&
        row_entries_checked(0i8, 11i8, 3i8, 0i8, 6i8, 11i8, 0i8, 9i8, 6i8, 5i8, 6i8, 9i8, 1i8, 2i8, 10i8, -1i8, 181u8) && row_entries_cover(0i8, 11i8, 3i8, 0i8, 6i8, 11i8, 0i8, 9i8, 6i8, 5i8, 6i8, 9i8, 1i8, 2i8, 10i8, -1i8, 181u8) && row_entries_oriented(0i8, 11i8, 3i8, 0i8, 6i8, 11i8, 0i8, 9i8, 6i8, 5i8, 6i8, 9i8, 1i8, 2i8, 10i8, -1i8, 181u8) &&
        row_entries_checked(11i8, 8i8, 5i8, 11i8, 5i8, 6i8, 8i8, 0i8, 5i8, 10i8, 5i8, 2i8, 0i8, 2i8, 5i8, -1i8, 182u8) && row_entries_cover(11i8, 8i8, 5i8, 11i8, 5i8, 6i8, 8i8, 0i8, 5i8, 10i8, 5i8, 2i8, 0i8, 2i8, 5i8, -1i8, 182u8) && row_entries_oriented(11i8, 8i8, 5i8, 11i8, 5i8, 6i8, 8i8, 0i8, 5i8, 10i8, 5i8, 2i8, 0i8, 2i8, 5i8, -1i8, 182u8) &&
        row_entries_checked(6i8, 11i8, 3i8, 6i8, 3i8, 5i8, 2i8, 10i8, 3i8, 10i8, 5i8, 3i8, -1i8, -1i8, -1i8, -1i8, 183u8) && row_entries_cover(6i8, 11i8, 3i8, 6i8, 3i8, 5i8, 2i8, 10i8, 3i8, 10i8, 5i8, 3i8, -1i8, -1i8, -1i8, -1i8, 183u8) && row_entries_oriented(6i8, 11i8, 3i8, 6i8, 3i8, 5i8, 2i8, 10i8, 3i8, 10i8, 5i8, 3i8, -1i8, -1i8, -1i8, -1i8, 183u8) &&
        row_entries_checked(5i8, 8i8, 9i8, 5i8, 2i8, 8i8, 5i8, 6i8, 2i8, 3i8, 8i8, 2i8, -1i8, -1i8, -1i8, -1i8, 184u8) && row_entries_cover(5i8, 8i8, 9i8, 5i8, 2i8, 8i8, 5i8, 6i8, 2i8, 3i8, 8i8, 2i8, -1i8, -1i8, -1i8, -1i8, 184u8) && row_entries_oriented(5i8, 8i8, 9i8, 5i8, 2i8, 8i8, 5i8, 6i8, 2i8, 3i8, 8i8, 2i8, -1i8, -1i8, -1i8, -1i8, 184u8) &&
        row_entries_checked(9i8, 5i8, 6i8, 9i8, 6i8, 0i8, 0i8, 6i8, 2i8, -1i8, -1i8, -1i8, -1i8, -1i8, -1i8, -1i8, 185u8) && row_entries_cover(9i8, 5i8, 6i8, 9i8, 6i8, 0i8, 0i8, 6i8, 2i8, -1i8, -1i8, -1i8, -1i8, -1i8, -1i8, -1i8, 185u8) && row_entries_oriented(9i8, 5i8, 6i8, 9i8, 6i8, 0i8, 0i8, 6i8, 2i8, -1i8, -1i8, -1i8, -1i8, -1i8, -1i8, -1i8, 185u8) &&
        row_entries_checked(1i8, 5i8, 8i8, 1i8, 8i8, 0i8, 5i8, 6i8, 8i8, 3i8, 8i8, 2i8, 6i8, 2i8, 8i8, -1i8, 186u8) && row_entries_cover(1i8, 5i8, 8i8, 1i8, 8i8, 0i8, 5i8, 6i8, 8i8, 3i8, 8i8, 2i8, 6i8, 2i8, 8i8, -1i8, 186u8) && row_entries_oriented(1i8, 5i8, 8i8, 1i8, 8i8, 0i8, 5i8, 6i8, 8i8, 3i8, 8i8, 2i8, 6i8, 2i8, 8i8, -1i8, 186u8) &&
        row_entries_checked(1i8, 5i8, 6i8, 2i8, 1i8, 6i8, -1i8, -1i8, -1i8, -1i8, -1i8, -1i8, -1i8, -1i8, -1i8, -1i8, 187u8) && row_entries_cover(1i8, 5i8, 6i8, 2i8, 1i8, 6i8, -1i8, -1i8, -1i8, -1i8, -1i8, -1i8, -1i8, -1i8, -1i8, -1i8, 187u8) && row_entries_oriented(1i8, 5i8, 6i8, 2i8, 1i8, 6i8, -1i8, -1i8, -1i8, -1i8, -1i8, -1i8, -1i8, -1i8, -1i8, -1i8, 187u8) &&
        row_entries_checked(1i8, 3i8, 6i8, 1i8, 6i8, 10i8, 3i8, 8i8, 6i8, 5i8, 6i8, 9i8, 8i8, 9i8, 6i8, -1i8, 188u8) && row_entries_cover(1i8, 3i8, 6i8, 1i8, 6i8, 10i8, 3i8, 8i8, 6i8, 5i8, 6i8, 9i8, 8i8, 9i8, 6i8, -1i8, 188u8) && row_entries_oriented(1i8, 3i8, 6i8, 1i8, 6i8, 10i8, 3i8, 8i8, 6i8, 5i8, 6i8, 9i8, 8i8, 9i8, 6i8, -1i8, 188u8) &&
        row_entries_checked(10i8, 1i8, 0i8, 10i8, 0i8, 6i8, 9i8, 5i8, 0i8, 5i8, 6i8, 0i8, -1i8, -1i8, -1i8, -1i8, 189u8) && row_entries_cover(10i8, 1i8, 0i8, 10i8, 0i8, 6i8, 9i8, 5i8, 0i8, 5i8, 6i8, 0i8, -1i8, -1i8, -1i8, -1i8, 189u8) && row_entries_oriented(10i8, 1i8, 0i8, 10i8, 0i8, 6i8, 9i8, 5i8, 0i8, 5i8, 6i8, 0i8, -1i8, -1i8, -1i8, -1i8, 189u8) &&
        row_entries_checked(0i8, 3i8, 8i8, 5i8, 6i8, 10i8, -1i8, -1i8, -1i8, -1i8, -1i8, -1i8, -1i8, -1i8, -1i8, -1i8, 190u8) && row_entries_cover(0i8, 3i8, 8i8, 5i8, 6i8, 10i8, -1i8, -1i8, -1i8, -1i8, -1i8, -1i8, -1i8, -1i8, -1i8, -1i8, 190u8) && row_entries_oriented(0i8, 3i8, 8i8, 5i8, 6i8, 10i8, -1i8, -1i8, -1i8, -1i8, -1i8, -1i8, -1i8, -1i8, -1i8, -1i8, 190u8) &&
        row_entries_checked(10i8, 5i8, 6i8, -1i8, -1i8, -1i8, -1i8, -1i8, -1i8, -1i8, -1i8, -1i8, -1i8, -1i8, -1i8, -1i8, 191u8) && row_entries_cover(10i8, 5i8, 6i8, -1i8, -1i8, -1i8, -1i8, -1i8, -1i8, -1i8, -1i8, -1i8, -1i8, -1i8, -1i8, -1i8, 191u8) && row_entries_oriented(10i8, 5i8, 6i8, -1i8, -1i8, -1i8, -1i8, -1i8, -1i8, -1i8, -1i8, -1i8, -1i8, -1i8, -1i8, -1i8, 191u8)
    ) by (bit_vector);
}

proof fn lemma_rows_checked_12()
    ensures
        row_checked(TRI_ROW_192, 192u8) && row_covers(TRI_ROW_192, 192u8) && row_oriented(TRI_ROW_192, 192u8),
        row_checked(TRI_ROW_193, 193u8) && row_covers(TRI_ROW_193, 193u8) && row_oriented(TRI_ROW_193, 193u8),
        row_checked(TRI_ROW_194, 194u8) && row_covers(TRI_ROW_194, 194u8) && row_oriented(TRI_ROW_194, 194u8),
        row_checked(TRI_ROW_195, 195u8) && row_covers(TRI_ROW_195, 195u8) && row_oriented(TRI_ROW_195, 195u8),
        row_checked(TRI_ROW_196, 196u8) && row_covers(TRI_ROW_196, 196u8) && row_oriented(TRI_ROW_196, 196u8),
        row_checked(TRI_ROW_197, 197u8) && row_covers(TRI_ROW_197, 197u8) && row_oriented(TRI_ROW_197, 197u8),
        row_checked(TRI_ROW_198, 198u8) && row_covers(TRI_ROW_198, 198u8) && row_oriented(TRI_ROW_198, 198u8),
        row_checked(TRI_ROW_199, 199u8) && row_covers(TRI_ROW_199, 199u8) && row_oriented(TRI_ROW_199, 199u8),
        row_checked(TRI_ROW_200, 200u8) && row_covers(TRI_ROW_200, 200u8) && row_oriented(TRI_ROW_200, 200u8),
        row_checked(TRI_ROW_201, 201u8) && row_covers(TRI_ROW_201, 201u8) && row_oriented(TRI_ROW_201, 201u8),
        row_checked(TRI_ROW_202, 202u8) && row_covers(TRI_ROW_202, 202u8) && row_oriented(TRI_ROW_202, 202u8),
        row_checked(TRI_ROW_203, 203u8) && row_covers(TRI_ROW_203, 203u8) && row_oriented(TRI_ROW_203, 203u8),
        row_checked(TRI_ROW_204, 204u8) && row_covers(TRI_ROW_204, 204u8) && row_oriented(TRI_ROW_204, 204u8),
        row_checked(TRI_ROW_205, 205u8) && row_covers(TRI_ROW_205, 205u8) && row_oriented(TRI_ROW_205, 205u8),
        row_checked(TRI_ROW_206, 206u8) && row_covers(TRI_ROW_206, 206u8) && row_oriented(TRI_ROW_206, 206u8),
        row_checked(TRI_ROW_207, 207u8) && row_covers(TRI_ROW_207, 207u8) && row_oriented(TRI_ROW_207, 207u8),
{
    assert(
        row_entries_checked(11i8, 5i8, 10i8, 7i8, 5i8, 11i8, -1i8, -1i8, -1i8, -1i8, -1i8, -1i8, -1i8, -1i8, -1i8, -1i8, 192u8) && row_entries_cover(11i8, 5i8, 10i8, 7i8, 5i8, 11i8, -1i8, -1i8, -1i8, -1i8, -1i8, -1i8, -1i8, -1i8, -1i8, -1i8, 192u8) && row_entries_oriented(11i8, 5i8, 10i8, 7i8, 5i8, 11i8, -1i8, -1i8, -1i8, -1i8, -1i8, -1i8, -1i8, -1i8, -1i8, -1i8, 192u8) &&
        row_entries_checked(11i8, 5i8, 10i8, 11i8, 7i8, 5i8, 8i8, 3i8, 0i8, -1i8, -1i8, -1i8, -1i8, -1i8, -1i8, -1i8, 193u8) && row_entries_cover(11i8, 5i8, 10i8, 11i8, 7i8, 5i8, 8i8, 3i8, 0i8, -1i8, -1i8, -1i8, -1i8, -1i8, -1i8, -1i8, 193u8) && row_entries_oriented(11i8, 5i8, 10i8, 11i8, 7i8, 5i8, 8i8, 3i8, 0i8, -1i8, -1i8, -1i8, -1i8, -1i8, -1i8, -1i8, 193u8) &&
        row_entries_checked(5i8, 11i8, 7i8, 5i8, 10i8, 11i8, 1i8, 9i8, 0i8, -1i8, -1i8, -1i8, -1i8, -1i8, -1i8, -1i8, 194u8) && row_entries_cover(5i8, 11i8, 7i8, 5i8, 10i8, 11i8, 1i8, 9i8, 0i8, -1i8, -1i8, -1i8, -1i8, -1i8, -1i8, -1i8, 194u8) && row_entries_oriented(5i8, 11i8, 7i8, 5i8, 10i8, 11i8, 1i8, 9i8, 0i8, -1i8, -1i8, -1i8, -1i8, -1i8, -1i8, -1i8, 194u8) &&
        row_entries_checked(10i8, 7i8, 5i8, 10i8, 11i8, 7i8, 9i8, 8i8, 1i8, 8i8, 3i8, 1i8, -1i8, -1i8, -1i8, -1i8, 195u8) && row_entries_cover(10i8, 7i8, 5i8, 10i8, 11i8, 7i8, 9i8, 8i8, 1i8, 8i8, 3i8, 1i8, -1i8, -1i8, -1i8, -1i8, 195u8) && row_entries_oriented(10i8, 7i8, 5i8, 10i8, 11i8, 7i8, 9i8, 8i8, 1i8, 8i8, 3i8, 1i8, -1i8, -1i8, -1i8, -1i8, 195u8) &&
        row_entries_checked(11i8, 1i8, 2i8, 11i8, 7i8, 1i8, 7i8, 5i8, 1i8, -1i8, -1i8, -1i8, -1i8, -1i8, -1i8, -1i8, 196u8) && row_entries_cover(11i8, 1i8, 2i8, 11i8, 7i8, 1i8, 7i8, 5i8, 1i8, -1i8, -1i8, -1i8, -1i8, -1i8, -1i8, -1i8, 196u8) && row_entries_oriented(11i8, 1i8, 2i8, 11i8, 7i8, 1i8, 7i8, 5i8, 1i8, -1i8, -1i8, -1i8, -1i8, -1i8, -1i8, -1i8, 196u8) &&
        row_entries_checked(0i8, 8i8, 3i8, 1i8, 2i8, 7i8, 1i8, 7i8, 5i8, 7i8, 2i8, 11i8, -1i8, -1i8, -1i8, -1i8, 197u8) && row_entries_cover(0i8, 8i8, 3i8, 1i8, 2i8, 7i8, 1i8, 7i8, 5i8, 7i8, 2i8, 11i8, -1i8, -1i8, -1i8, -1i8, 197u8) && row_entries_oriented(0i8, 8i8, 3i8, 1i8, 2i8, 7i8, 1i8, 7i8, 5i8, 7i8, 2i8, 11i8, -1i8, -1i8, -1i8, -1i8, 197u8) &&
        row_entries_checked(9i8, 7i8, 5i8, 9i8, 2i8, 7i8, 9i8, 0i8, 2i8, 2i8, 11i8, 7i8, -1i8, -1i8, -1i8, -1i8, 198u8) && row_entries_cover(9i8, 7i8, 5i8, 9i8, 2i8, 7i8, 9i8, 0i8, 2i8, 2i8, 11i8, 7i8, -1i8, -1i8, -1i8, -1i8, 198u8) && row_entries_oriented(9i8, 7i8, 5i8, 9i8, 2i8, 7i8, 9i8, 0i8, 2i8, 2i8, 11i8, 7i8, -1i8, -1i8, -1i8, -1i8, 198u8) &&
        row_entries_checked(7i8, 5i8, 2i8, 7i8, 2i8, 11i8, 5i8, 9i8, 2i8, 3i8, 2i8, 8i8, 9i8, 8i8, 2i8, -1i8, 199u8) && row_entries_cover(7i8, 5i8, 2i8, 7i8, 2i8, 11i8, 5i8, 9i8, 2i8, 3i8, 2i8, 8i8, 9i8, 8i8, 2i8, -1i8, 199u8) && row_entries_oriented(7i8, 5i8, 2i8, 7i8, 2i8, 11i8, 5i8, 9i8, 2i8, 3i8, 2i8, 8i8, 9i8, 8i8, 2i8, -1i8, 199u8) &&
        row_entries_checked(2i8, 5i8, 10i8, 2i8, 3i8, 5i8, 3i8, 7i8, 5i8, -1i8, -1i8, -1i8, -1i8, -1i8, -1i8, -1i8, 200u8) && row_entries_cover(2i8, 5i8, 10i8, 2i8, 3i8, 5i8, 3i8, 7i8, 5i8, -1i8, -1i8, -1i8, -1i8, -1i8, -1i8, -1i8, 200u8) && row_entries_oriented(2i8, 5i8, 10i8, 2i8, 3i8, 5i8, 3i8, 7i8, 5i8, -1i8, -1i8, -1i8, -1i8, -1i8, -1i8, -1i8, 200u8) &&
        row_entries_checked(8i8, 2i8, 0i8, 8i8, 5i8, 2i8, 8i8, 7i8, 5i8, 10i8, 2i8, 5i8, -1i8, -1i8, -1i8, -1i8, 201u8) && row_entries_cover(8i8, 2i8, 0i8, 8i8, 5i8, 2i8, 8i8, 7i8, 5i8, 10i8, 2i8, 5i8, -1i8, -1i8, -1i8, -1i8, 201u8) && row_entries_oriented(8i8, 2i8, 0i8, 8i8, 5i8, 2i8, 8i8, 7i8, 5i8, 10i8, 2i8, 5i8, -1i8, -1i8, -1i8, -1i8, 201u8) &&
        row_entries_checked(9i8, 0i8, 1i8, 5i8, 10i8, 3i8, 5i8, 3i8, 7i8, 3i8, 10i8, 2i8, -1i8, -1i8, -1i8, -1i8, 202u8) && row_entries_cover(9i8, 0i8, 1i8, 5i8, 10i8, 3i8, 5i8, 3i8, 7i8, 3i8, 10i8, 2i8, -1i8, -1i8, -1i8, -1i8, 202u8) && row_entries_oriented(9i8, 0i8, 1i8, 5i8, 10i8, 3i8, 5i8, 3i8, 7i8, 3i8, 10i8, 2i8, -1i8, -1i8, -1i8, -1i8, 202u8) &&
        row_entries_checked(9i8, 8i8, 2i8, 9i8, 2i8, 1i8, 8i8, 7i8, 2i8, 10i8, 2i8, 5i8, 7i8, 5i8, 2i8, -1i8, 203u8) && row_entries_cover(9i8, 8i8, 2i8, 9i8, 2i8, 1i8, 8i8, 7i8, 2i8, 10i8, 2i8, 5i8, 7i8, 5i8, 2i8, -1i8, 203u8) && row_entries_oriented(9i8, 8i8, 2i8, 9i8, 2i8, 1i8, 8i8, 7i8, 2i8, 10i8, 2i8, 5i8, 7i8, 5i8, 2i8, -1i8, 203u8) &&
        row_entries_checked(1i8, 3i8, 5i8, 3i8, 7i8, 5i8, -1i8, -1i8, -1i8, -1i8, -1i8, -1i8, -1i8, -1i8, -1i8, -1i8, 204u8) && row_entries_cover(1i8, 3i8, 5i8, 3i8, 7i8, 5i8, -1i8, -1i8, -1i8, -1i8, -1i8, -1i8, -1i8, -1i8, -1i8, -1i8, 204u8) && row_entries_oriented(1i8, 3i8, 5i8, 3i8, 7i8, 5i8, -1i8, -1i8, -1i8, -1i8, -1i8, -1i8, -1i8, -1i8, -1i8, -1i8, 204u8) &&
        row_entries_checked(0i8, 8i8, 7i8, 0i8, 7i8, 1i8, 1i8, 7i8, 5i8, -1i8, -1i8, -1i8, -1i8, -1i8, -1i8, -1i8, 205u8) && row_entries_cover(0i8, 8i8, 7i8, 0i8, 7i8, 1i8, 1i8, 7i8, 5i8, -1i8, -1i8, -1i8, -1i8, -1i8, -1i8, -1i8, 205u8) && row_entries_oriented(0i8, 8i8, 7i8, 0i8, 7i8, 1i8, 1i8, 7i8, 5i8, -1i8, -1i8, -1i8, -1i8, -1i8, -1i8, -1i8, 205u8) &&
        row_entries_checked(9i8, 0i8, 3i8, 9i8, 3i8, 5i8, 5i8, 3i8, 7i8, -1i8, -1i8, -1i8, -1i8, -1i8, -1i8, -1i8, 206u8) && row_entries_cover(9i8, 0i8, 3i8, 9i8, 3i8, 5i8, 5i8, 3i8, 7i8, -1i8, -1i8, -1i8, -1i8, -1i8, -1i8, -1i8, 206u8) && row_entries_oriented(9i8, 0i8, 3i8, 9i8, 3i8, 5i8, 5i8, 3i8, 7i8, -1i8, -1i8, -1i8, -1i8, -1i8, -1i8, -1i8, 206u8) &&
        row_entries_checked(9i8, 8i8, 7i8, 5i8, 9i8, 7i8, -1i8, -1i8, -1i8, -1i8, -1i8, -1i8, -1i8, -1i8, -1i8, -1i8, 207u8) && row_entries_cover(9i8, 8i8, 7i8, 5i8, 9i8, 7i8, -1i8, -1i8, -1i8, -1i8, -1i8, -1i8, -1i8, -1i8, -1i8, -1i8, 207u8) && row_entries_oriented(9i8, 8i8, 7i8, 5i8, 9i8, 7i8, -1i8, -1i8, -1i8, -1i8, -1i8, -1i8, -1i8, -1i8, -1i8, -1i8, 207u8)
    ) by (bit_vector);
}

proof fn lemma_rows_checked_13()
    ensures
        row_checked(TRI_ROW_208, 208u8) && row_covers(TRI_ROW_208, 208u8) && row_oriented(TRI_ROW_208, 208u8),
        row_checked(TRI_ROW_209, 209u8) && row_covers(TRI_ROW_209, 209u8) && row_oriented(TRI_ROW_209, 209u8),
        row_checked(TRI_ROW_210, 210u8) && row_covers(TRI_ROW_210, 210u8) && row_oriented(TRI_ROW_210, 210u8),
        row_checked(TRI_ROW_211, 211u8) && row_covers(TRI_ROW_211, 211u8) && row_oriented(TRI_ROW_211, 211u8),
        row_checked(TRI_ROW_212, 212u8) && row_covers(TRI_ROW_212, 212u8) && row_oriented(TRI_ROW_212, 212u8),
        row_checked(TRI_ROW_213, 213u8) && row_covers(TRI_ROW_213, 213u8) && row_oriented(TRI_ROW_213, 213u8),
        row_checked(TRI_ROW_214, 214u8) && row_covers(TRI_ROW_214, 214u8) && row_oriented(TRI_ROW_214, 214u8),
        row_checked(TRI_ROW_215, 215u8) && row_covers(TRI_ROW_215, 215u8) && row_oriented(TRI_ROW_215, 215u8),
        row_checked(TRI_ROW_216, 216u8) && row_covers(TRI_ROW_216, 216u8) && row_oriented(TRI_ROW_216, 216u8),
        row_checked(TRI_ROW_217, 217u8) && row_covers(TRI_ROW_217, 217u8) && row_oriented(TRI_ROW_217, 217u8),
        row_checked(TRI_ROW_218, 218u8) && row_covers(TRI_ROW_218, 218u8) && row_oriented(TRI_ROW_218, 218u8),
        row_checked(TRI_ROW_219, 219u8) && row_covers(TRI_ROW_219, 219u8) && row_oriented(TRI_ROW_219, 219u8),
        row_checked(TRI_ROW_220, 220u8) && row_covers(TRI_ROW_220, 220u8) && row_oriented(TRI_ROW_220, 220u8),
        row_checked(TRI_ROW_221, 221u8) && row_covers(TRI_ROW_221, 221u8) && row_oriented(TRI_ROW_221, 221u8),
        row_checked(TRI_ROW_222, 222u8) && row_covers(TRI_ROW_222, 222u8) && row_oriented(TRI_ROW_222, 222u8),
        row_checked(TRI_ROW_223, 223u8) && row_covers(TRI_ROW_223, 223u8) && row_oriented(TRI_ROW_223, 223u8),
{
    assert(
        row_entries_checked(5i8, 8i8, 4i8, 5i8, 10i8, 8i8, 10i8, 11i8, 8i8, -1i8, -1i8, -1i8, -1i8, -1i8, -1i8, -1i8, 208u8) && row_entries_cover(5i8, 8i8, 4i8, 5i8, 10i8, 8i8, 10i8, 11i8, 8i8, -1i8, -1i8, -1i8, -1i8, -1i8, -1i8, -1i8, 208u8) && row_entries_oriented(5i8, 8i8, 4i8, 5i8, 10i8, 8i8, 10i8, 11i8, 8i8, -1i8, -1i8, -1i8, -1i8, -1i8, -1i8, -1i8, 208u8) &&
        row_entries_checked(5i8, 0i8, 4i8, 5i8, 11i8, 0i8, 5i8, 10i8, 11i8, 11i8, 3i8, 0i8, -1i8, -1i8, -1i8, -1i8, 209u8) && row_entries_cover(5i8, 0i8, 4i8, 5i8, 11i8, 0i8, 5i8, 10i8, 11i8, 11i8, 3i8, 0i8, -1i8, -1i8, -1i8, -1i8, 209u8) && row_entries_oriented(5i8, 0i8, 4i8, 5i8, 11i8, 0i8, 5i8, 10i8, 11i8, 11i8, 3i8, 0i8, -1i8, -1i8, -1i8, -1i8, 209u8) &&
        row_entries_checked(0i8, 1i8, 9i8, 8i8, 4i8, 10i8, 8i8, 10i8, 11i8, 10i8, 4i8, 5i8, -1i8, -1i8, -1i8, -1i8, 210u8) && row_entries_cover(0i8, 1i8, 9i8, 8i8, 4i8, 10i8, 8i8, 10i8, 11i8, 10i8, 4i8, 5i8, -1i8, -1i8, -1i8, -1i8, 210u8) && row_entries_oriented(0i8, 1i8, 9i8, 8i8, 4i8, 10i8, 8i8, 10i8, 11i8, 10i8, 4i8, 5i8, -1i8, -1i8, -1i8, -1i8, 210u8) &&
        row_entries_checked(10i8, 11i8, 4i8, 10i8, 4i8, 5i8, 11i8, 3i8, 4i8, 9i8, 4i8, 1i8, 3i8, 1i8, 4i8, -1i8, 211u8) && row_entries_cover(10i8, 11i8, 4i8, 10i8, 4i8, 5i8, 11i8, 3i8, 4i8, 9i8, 4i8, 1i8, 3i8, 1i8, 4i8, -1i8, 211u8) && row_entries_oriented(10i8, 11i8, 4i8, 10i8, 4i8, 5i8, 11i8, 3i8, 4i8, 9i8, 4i8, 1i8, 3i8, 1i8, 4i8, -1i8, 211u8) &&
        row_entries_checked(2i8, 5i8, 1i8, 2i8, 8i8, 5i8, 2i8, 11i8, 8i8, 4i8, 5i8, 8i8, -1i8, -1i8, -1i8, -1i8, 212u8) && row_entries_cover(2i8, 5i8, 1i8, 2i8, 8i8, 5i8, 2i8, 11i8, 8i8, 4i8, 5i8, 8i8, -1i8, -1i8, -1i8, -1i8, 212u8) && row_entries_oriented(2i8, 5i8, 1i8, 2i8, 8i8, 5i8, 2i8, 11i8, 8i8, 4i8, 5i8, 8i8, -1i8, -1i8, -1i8, -1i8, 212u8) &&
        row_entries_checked(0i8, 4i8, 11i8, 0i8, 11i8, 3i8, 4i8, 5i8, 11i8, 2i8, 11i8, 1i8, 5i8, 1i8, 11i8, -1i8, 213u8) && row_entries_cover(0i8, 4i8, 11i8, 0i8, 11i8, 3i8, 4i8, 5i8, 11i8, 2i8, 11i8, 1i8, 5i8, 1i8, 11i8, -1i8, 213u8) && row_entries_oriented(0i8, 4i8, 11i8, 0i8, 11i8, 3i8, 4i8, 5i8, 11i8, 2i8, 11i8, 1i8, 5i8, 1i8, 11i8, -1i8, 213u8) &&
        row_entries_checked(0i8, 2i8, 5i8, 0i8, 5i8, 9i8, 2i8, 11i8, 5i8, 4i8, 5i8, 8i8, 11i8, 8i8, 5i8, -1i8, 214u8) && row_entries_cover(0i8, 2i8, 5i8, 0i8, 5i8, 9i8, 2i8, 11i8, 5i8, 4i8, 5i8, 8i8, 11i8, 8i8, 5i8, -1i8, 214u8) && row_entries_oriented(0i8, 2i8, 5i8, 0i8, 5i8, 9i8, 2i8, 11i8, 5i8, 4i8, 5i8, 8i8, 11i8, 8i8, 5i8, -1i8, 214u8) &&
        row_entries_checked(9i8, 4i8, 5i8, 2i8, 11i8, 3i8, -1i8, -1i8, -1i8, -1i8, -1i8, -1i8, -1i8, -1i8, -1i8, -1i8, 215u8) && row_entries_cover(9i8, 4i8, 5i8, 2i8, 11i8, 3i8, -1i8, -1i8, -1i8, -1i8, -1i8, -1i8, -1i8, -1i8, -1i8, -1i8, 215u8) && row_entries_oriented(9i8, 4i8, 5i8, 2i8, 11i8, 3i8, -1i8, -1i8, -1i8, -1i8, -1i8, -1i8, -1i8, -1i8, -1i8, -1i8, 215u8) &&
        row_entries_checked(2i8, 5i8, 10i8, 3i8, 5i8, 2i8, 3i8, 4i8, 5i8, 3i8, 8i8, 4i8, -1i8, -1i8, -1i8, -1i8, 216u8) && row_entries_cover(2i8, 5i8, 10i8, 3i8, 5i8, 2i8, 3i8, 4i8, 5i8, 3i8, 8i8, 4i8, -1i8, -1i8, -1i8, -1i8, 216u8) && row_entries_oriented(2i8, 5i8, 10i8, 3i8, 5i8, 2i8, 3i8, 4i8, 5i8, 3i8, 8i8, 4i8, -1i8, -1i8, -1i8, -1i8, 216u8) &&
        row_entries_checked(5i8, 10i8, 2i8, 5i8, 2i8, 4i8, 4i8, 2i8, 0i8, -1i8, -1i8, -1i8, -1i8, -1i8, -1i8, -1i8, 217u8) && row_entries_cover(5i8, 10i8, 2i8, 5i8, 2i8, 4i8, 4i8, 2i8, 0i8, -1i8, -1i8, -1i8, -1i8, -1i8, -1i8, -1i8, 217u8) && row_entries_oriented(5i8, 10i8, 2i8, 5i8, 2i8, 4i8, 4i8, 2i8, 0i8, -1i8, -1i8, -1i8, -1i8, -1i8, -1i8, -1i8, 217u8) &&
        row_entries_checked(3i8, 10i8, 2i8, 3i8, 5i8, 10i8, 3i8, 8i8, 5i8, 4i8, 5i8, 8i8, 0i8, 1i8, 9i8, -1i8, 218u8) && row_entries_cover(3i8, 10i8, 2i8, 3i8, 5i8, 10i8, 3i8, 8i8, 5i8, 4i8, 5i8, 8i8, 0i8, 1i8, 9i8, -1i8, 218u8) && row_entries_oriented(3i8, 10i8, 2i8, 3i8, 5i8, 10i8, 3i8, 8i8, 5i8, 4i8, 5i8, 8i8, 0i8, 1i8, 9i8, -1i8, 218u8) &&
        row_entries_checked(5i8, 10i8, 2i8, 5i8, 2i8, 4i8, 1i8, 9i8, 2i8, 9i8, 4i8, 2i8, -1i8, -1i8, -1i8, -1i8, 219u8) && row_entries_cover(5i8, 10i8, 2i8, 5i8, 2i8, 4i8, 1i8, 9i8, 2i8, 9i8, 4i8, 2i8, -1i8, -1i8, -1i8, -1i8, 219u8) && row_entries_oriented(5i8, 10i8, 2i8, 5i8, 2i8, 4i8, 1i8, 9i8, 2i8, 9i8, 4i8, 2i8, -1i8, -1i8, -1i8, -1i8, 219u8) &&
        row_entries_checked(8i8, 4i8, 5i8, 8i8, 5i8, 3i8, 3i8, 5i8, 1i8, -1i8, -1i8, -1i8, -1i8, -1i8, -1i8, -1i8, 220u8) && row_entries_cover(8i8, 4i8, 5i8, 8i8, 5i8, 3i8, 3i8, 5i8, 1i8, -1i8, -1i8, -1i8, -1i8, -1i8, -1i8, -1i8, 220u8) && row_entries_oriented(8i8, 4i8, 5i8, 8i8, 5i8, 3i8, 3i8, 5i8, 1i8, -1i8, -1i8, -1i8, -1i8, -1i8, -1i8, -1i8, 220u8) &&
        row_entries_checked(0i8, 4i8, 5i8, 1i8, 0i8, 5i8, -1i8, -1i8, -1i8, -1i8, -1i8, -1i8, -1i8, -1i8, -1i8, -1i8, 221u8) && row_entries_cover(0i8, 4i8, 5i8, 1i8, 0i8, 5i8, -1i8, -1i8, -1i8, -1i8, -1i8, -1i8, -1i8, -1i8, -1i8, -1i8, 221u8) && row_entries_oriented(0i8, 4i8, 5i8, 1i8, 0i8, 5i8, -1i8, -1i8, -1i8, -1i8, -1i8, -1i8, -1i8, -1i8, -1i8, -1i8, 221u8) &&
        row_entries_checked(8i8, 4i8, 5i8, 8i8, 5i8, 3i8, 9i8, 0i8, 5i8, 0i8, 3i8, 5i8, -1i8, -1i8, -1i8, -1i8, 222u8) && row_entries_cover(8i8, 4i8, 5i8, 8i8, 5i8, 3i8, 9i8, 0i8, 5i8, 0i8, 3i8, 5i8, -1i8, -1i8, -1i8, -1i8, 222u8) && row_entries_oriented(8i8, 4i8, 5i8, 8i8, 5i8, 3i8, 9i8, 0i8, 5i8, 0i8, 3i8, 5i8, -1i8, -1i8, -1i8, -1i8, 222u8) &&
        row_entries_checked(9i8, 4i8, 5i8, -1i8, -1i8, -1i8, -1i8, -1i8, -1i8, -1i8, -1i8, -1i8, -1i8, -1i8, -1i8, -1i8, 223u8) && row_entries_cover(9i8, 4i8, 5i8, -1i8, -1i8, -1i8, -1i8, -1i8, -1i8, -1i8, -1i8, -1i8, -1i8, -1i8, -1i8, -1i8, 223u8) && row_entries_oriented(9i8, 4i8, 5i8, -1i8, -1i8, -1i8, -1i8, -1i8, -1i8, -1i8, -1i8, -1i8, -1i8, -1i8, -1i8, -1i8, 223u8)
    ) by (bit_vector);
}

proof fn lemma_rows_checked_14()
    ensures
        row_checked(TRI_ROW_224, 224u8) && row_covers(TRI_ROW_224, 224u8) && row_oriented(TRI_ROW_224, 224u8),
        row_checked(TRI_ROW_225, 225u8) && row_covers(TRI_ROW_225, 225u8) && row_oriented(TRI_ROW_225, 225u8),
        row_checked(TRI_ROW_226, 226u8) && row_covers(TRI_ROW_226, 226u8) && row_oriented(TRI_ROW_226, 226u8),
        row_checked(TRI_ROW_227, 227u8) && row_covers(TRI_ROW_227, 227u8) && row_oriented(TRI_ROW_227, 227u8),
        row_checked(TRI_ROW_228, 228u8) && row_covers(TRI_ROW_228, 228u8) && row_oriented(TRI_ROW_228, 228u8),
        row_checked(TRI_ROW_229, 229u8) && row_covers(TRI_ROW_229, 229u8) && row_oriented(TRI_ROW_229, 229u8),
        row_checked(TRI_ROW_230, 230u8) && row_covers(TRI_ROW_230, 230u8) && row_oriented(TRI_ROW_230, 230u8),
        row_checked(TRI_ROW_231, 231u8) && row_covers(TRI_ROW_231, 231u8) && row_oriented(TRI_ROW_231, 231u8),
        row_checked(TRI_ROW_232, 232u8) && row_covers(TRI_ROW_232, 232u8) && row_oriented(TRI_ROW_232, 232u8),
        row_checked(TRI_ROW_233, 233u8) && row_covers(TRI_ROW_233, 233u8) && row_oriented(TRI_ROW_233, 233u8),
        row_checked(TRI_ROW_234, 234u8) && row_covers(TRI_ROW_234, 234u8) && row_oriented(TRI_ROW_234, 234u8),
        row_checked(TRI_ROW_235, 235u8) && row_covers(TRI_ROW_235, 235u8) && row_oriented(TRI_ROW_235, 235u8),
        row_checked(TRI_ROW_236, 236u8) && row_covers(TRI_ROW_236, 236u8) && row_oriented(TRI_ROW_236, 236u8),
        row_checked(TRI_ROW_237, 237u8) && row_covers(TRI_ROW_237, 237u8) && row_oriented(TRI_ROW_237, 237u8),
        row_checked(TRI_ROW_238, 238u8) && row_covers(TRI_ROW_238, 238u8) && row_oriented(TRI_ROW_238, 238u8),
        row_checked(TRI_ROW_239, 239u8) && row_covers(TRI_ROW_239, 239u8) && row_oriented(TRI_ROW_239, 239u8),
{
    assert(
        row_entries_checked(4i8, 11i8, 7i8, 4i8, 9i8, 11i8, 9i8, 10i8, 11i8, -1i8, -1i8, -1i8, -1i8, -1i8, -1i8, -1i8, 224u8) && row_entries_cover(4i8, 11i8, 7i8, 4i8, 9i8, 11i8, 9i8, 10i8, 11i8, -1i8, -1i8, -1i8, -1i8, -1i8, -1i8, -1i8, 224u8) && row_entries_oriented(4i8, 11i8, 7i8, 4i8, 9i8, 11i8, 9i8, 10i8, 11i8, -1i8, -1i8, -1i8, -1i8, -1i8, -1i8, -1i8, 224u8) &&
        row_entries_checked(0i8, 8i8, 3i8, 4i8, 9i8, 7i8, 9i8, 11i8, 7i8, 9i8, 10i8, 11i8, -1i8, -1i8, -1i8, -1i8, 225u8) && row_entries_cover(0i8, 8i8, 3i8, 4i8, 9i8, 7i8, 9i8, 11i8, 7i8, 9i8, 10i8, 11i8, -1i8, -1i8, -1i8, -1i8, 225u8) && row_entries_oriented(0i8, 8i8, 3i8, 4i8, 9i8, 7i8, 9i8, 11i8, 7i8, 9i8, 10i8, 11i8, -1i8, -1i8, -1i8, -1i8, 225u8) &&
        row_entries_checked(1i8, 10i8, 11i8, 1i8, 11i8, 4i8, 1i8, 4i8, 0i8, 7i8, 4i8, 11i8, -1i8, -1i8, -1i8, -1i8, 226u8) && row_entries_cover(1i8, 10i8, 11i8, 1i8, 11i8, 4i8, 1i8, 4i8, 0i8, 7i8, 4i8, 11i8, -1i8, -1i8, -1i8, -1i8, 226u8) && row_entries_oriented(1i8, 10i8, 11i8, 1i8, 11i8, 4i8, 1i8, 4i8, 0i8, 7i8, 4i8, 11i8, -1i8, -1i8, -1i8, -1i8, 226u8) &&
        row_entries_checked(3i8, 1i8, 4i8, 3i8, 4i8, 8i8, 1i8, 10i8, 4i8, 7i8, 4i8, 11i8, 10i8, 11i8, 4i8, -1i8, 227u8) && row_entries_cover(3i8, 1i8, 4i8, 3i8, 4i8, 8i8, 1i8, 10i8, 4i8, 7i8, 4i8, 11i8, 10i8, 11i8, 4i8, -1i8, 227u8) && row_entries_oriented(3i8, 1i8, 4i8, 3i8, 4i8, 8i8, 1i8, 10i8, 4i8, 7i8, 4i8, 11i8, 10i8, 11i8, 4i8, -1i8, 227u8) &&
        row_entries_checked(4i8, 11i8, 7i8, 9i8, 11i8, 4i8, 9i8, 2i8, 11i8, 9i8, 1i8, 2i8, -1i8, -1i8, -1i8, -1i8, 228u8) && row_entries_cover(4i8, 11i8, 7i8, 9i8, 11i8, 4i8, 9i8, 2i8, 11i8, 9i8, 1i8, 2i8, -1i8, -1i8, -1i8, -1i8, 228u8) && row_entries_oriented(4i8, 11i8, 7i8, 9i8, 11i8, 4i8, 9i8, 2i8, 11i8, 9i8, 1i8, 2i8, -1i8, -1i8, -1i8, -1i8, 228u8) &&
        row_entries_checked(9i8, 7i8, 4i8, 9i8, 11i8, 7i8, 9i8, 1i8, 11i8, 2i8, 11i8, 1i8, 0i8, 8i8, 3i8, -1i8, 229u8) && row_entries_cover(9i8, 7i8, 4i8, 9i8, 11i8, 7i8, 9i8, 1i8, 11i8, 2i8, 11i8, 1i8, 0i8, 8i8, 3i8, -1i8, 229u8) && row_entries_oriented(9i8, 7i8, 4i8, 9i8, 11i8, 7i8, 9i8, 1i8, 11i8, 2i8, 11i8, 1i8, 0i8, 8i8, 3i8, -1i8, 229u8) &&
        row_entries_checked(11i8, 7i8, 4i8, 11i8, 4i8, 2i8, 2i8, 4i8, 0i8, -1i8, -1i8, -1i8, -1i8, -1i8, -1i8, -1i8, 230u8) && row_entries_cover(11i8, 7i8, 4i8, 11i8, 4i8, 2i8, 2i8, 4i8, 0i8, -1i8, -1i8, -1i8, -1i8, -1i8, -1i8, -1i8, 230u8) && row_entries_oriented(11i8, 7i8, 4i8, 11i8, 4i8, 2i8, 2i8, 4i8, 0i8, -1i8, -1i8, -1i8, -1i8, -1i8, -1i8, -1i8, 230u8) &&
        row_entries_checked(11i8, 7i8, 4i8, 11i8, 4i8, 2i8, 8i8, 3i8, 4i8, 3i8, 2i8, 4i8, -1i8, -1i8, -1i8, -1i8, 231u8) && row_entries_cover(11i8, 7i8, 4i8, 11i8, 4i8, 2i8, 8i8, 3i8, 4i8, 3i8, 2i8, 4i8, -1i8, -1i8, -1i8, -1i8, 231u8) && row_entries_oriented(11i8, 7i8, 4i8, 11i8, 4i8, 2i8, 8i8, 3i8, 4i8, 3i8, 2i8, 4i8, -1i8, -1i8, -1i8, -1i8, 231u8) &&
        row_entries_checked(2i8, 9i8, 10i8, 2i8, 7i8, 9i8, 2i8, 3i8, 7i8, 7i8, 4i8, 9i8, -1i8, -1i8, -1i8, -1i8, 232u8) && row_entries_cover(2i8, 9i8, 10i8, 2i8, 7i8, 9i8, 2i8, 3i8, 7i8, 7i8, 4i8, 9i8, -1i8, -1i8, -1i8, -1i8, 232u8) && row_entries_oriented(2i8, 9i8, 10i8, 2i8, 7i8, 9i8, 2i8, 3i8, 7i8, 7i8, 4i8, 9i8, -1i8, -1i8, -1i8, -1i8, 232u8) &&
        row_entries_checked(9i8, 10i8, 7i8, 9i8, 7i8, 4i8, 10i8, 2i8, 7i8, 8i8, 7i8, 0i8, 2i8, 0i8, 7i8, -1i8, 233u8) && row_entries_cover(9i8, 10i8, 7i8, 9i8, 7i8, 4i8, 10i8, 2i8, 7i8, 8i8, 7i8, 0i8, 2i8, 0i8, 7i8, -1i8, 233u8) && row_entries_oriented(9i8, 10i8, 7i8, 9i8, 7i8, 4i8, 10i8, 2i8, 7i8, 8i8, 7i8, 0i8, 2i8, 0i8, 7i8, -1i8, 233u8) &&
        row_entries_checked(3i8, 7i8, 10i8, 3i8, 10i8, 2i8, 7i8, 4i8, 10i8, 1i8, 10i8, 0i8, 4i8, 0i8, 10i8, -1i8, 234u8) && row_entries_cover(3i8, 7i8, 10i8, 3i8, 10i8, 2i8, 7i8, 4i8, 10i8, 1i8, 10i8, 0i8, 4i8, 0i8, 10i8, -1i8, 234u8) && row_entries_oriented(3i8, 7i8, 10i8, 3i8, 10i8, 2i8, 7i8, 4i8, 10i8, 1i8, 10i8, 0i8, 4i8, 0i8, 10i8, -1i8, 234u8) &&
        row_entries_checked(1i8, 10i8, 2i8, 8i8, 7i8, 4i8, -1i8, -1i8, -1i8, -1i8, -1i8, -1i8, -1i8, -1i8, -1i8, -1i8, 235u8) && row_entries_cover(1i8, 10i8, 2i8, 8i8, 7i8, 4i8, -1i8, -1i8, -1i8, -1i8, -1i8, -1i8, -1i8, -1i8, -1i8, -1i8, 235u8) && row_entries_oriented(1i8, 10i8, 2i8, 8i8, 7i8, 4i8, -1i8, -1i8, -1i8, -1i8, -1i8, -1i8, -1i8, -1i8, -1i8, -1i8, 235u8) &&
        row_entries_checked(4i8, 9i8, 1i8, 4i8, 1i8, 7i8, 7i8, 1i8, 3i8, -1i8, -1i8, -1i8, -1i8, -1i8, -1i8, -1i8, 236u8) && row_entries_cover(4i8, 9i8, 1i8, 4i8, 1i8, 7i8, 7i8, 1i8, 3i8, -1i8, -1i8, -1i8, -1i8, -1i8, -1i8, -1i8, 236u8) && row_entries_oriented(4i8, 9i8, 1i8, 4i8, 1i8, 7i8, 7i8, 1i8, 3i8, -1i8, -1i8, -1i8, -1i8, -1i8, -1i8, -1i8, 236u8) &&
        row_entries_checked(4i8, 9i8, 1i8, 4i8, 1i8, 7i8, 0i8, 8i8, 1i8, 8i8, 7i8, 1i8, -1i8, -1i8, -1i8, -1i8, 237u8) && row_entries_cover(4i8, 9i8, 1i8, 4i8, 1i8, 7i8, 0i8, 8i8, 1i8, 8i8, 7i8, 1i8, -1i8, -1i8, -1i8, -1i8, 237u8) && row_entries_oriented(4i8, 9i8, 1i8, 4i8, 1i8, 7i8, 0i8, 8i8, 1i8, 8i8, 7i8, 1i8, -1i8, -1i8, -1i8, -1i8, 237u8) &&
        row_entries_checked(4i8, 0i8, 3i8, 7i8, 4i8, 3i8, -1i8, -1i8, -1i8, -1i8, -1i8, -1i8, -1i8, -1i8, -1i8, -1i8, 238u8) && row_entries_cover(4i8, 0i8, 3i8, 7i8, 4i8, 3i8, -1i8, -1i8, -1i8, -1i8, -1i8, -1i8, -1i8, -1i8, -1i8, -1i8, 238u8) && row_entries_oriented(4i8, 0i8, 3i8, 7i8, 4i8, 3i8, -1i8, -1i8, -1i8, -1i8, -1i8, -1i8, -1i8, -1i8, -1i8, -1i8, 238u8) &&
        row_entries_checked(4i8, 8i8, 7i8, -1i8, -1i8, -1i8, -1i8, -1i8, -1i8, -1i8, -1i8, -1i8, -1i8, -1i8, -1i8, -1i8, 239u8) && row_entries_cover(4i8, 8i8, 7i8, -1i8, -1i8, -1i8, -1i8, -1i8, -1i8, -1i8, -1i8, -1i8, -1i8, -1i8, -1i8, -1i8, 239u8) && row_entries_oriented(4i8, 8i8, 7i8, -1i8, -1i8, -1i8, -1i8, -1i8, -1i8, -1i8, -1i8, -1i8, -1i8, -1i8, -1i8, -1i8, 239u8)
    ) by (bit_vector);
}

proof fn lemma_rows_checked_15()
    ensures
        row_checked(TRI_ROW_240, 240u8) && row_covers(TRI_ROW_240, 240u8) && row_oriented(TRI_ROW_240, 240u8),
        row_checked(TRI_ROW_241, 241u8) && row_covers(TRI_ROW_241, 241u8) && row_oriented(TRI_ROW_241, 241u8),
        row_checked(TRI_ROW_242, 242u8) && row_covers(TRI_ROW_242, 242u8) && row_oriented(TRI_ROW_242, 242u8),
        row_checked(TRI_ROW_243, 243u8) && row_covers(TRI_ROW_243, 243u8) && row_oriented(TRI_ROW_243, 243u8),
        row_checked(TRI_ROW_244, 244u8) && row_covers(TRI_ROW_244, 244u8) && row_oriented(TRI_ROW_244, 244u8),
        row_checked(TRI_ROW_245, 245u8) && row_covers(TRI_ROW_245, 245u8) && row_oriented(TRI_ROW_245, 245u8),
        row_checked(TRI_ROW_246, 246u8) && row_covers(TRI_ROW_246, 246u8) && row_oriented(TRI_ROW_246, 246u8),
        row_checked(TRI_ROW_247, 247u8) && row_covers(TRI_ROW_247, 247u8) && row_oriented(TRI_ROW_247, 247u8),
        row_checked(TRI_ROW_248, 248u8) && row_covers(TRI_ROW_248, 248u8) && row_oriented(TRI_ROW_248, 248u8),
        row_checked(TRI_ROW_249, 249u8) && row_covers(TRI_ROW_249, 249u8) && row_oriented(TRI_ROW_249, 249u8),
        row_checked(TRI_ROW_250, 250u8) && row_covers(TRI_ROW_250, 250u8) && row_oriented(TRI_ROW_250, 250u8),
        row_checked(TRI_ROW_251, 251u8) && row_covers(TRI_ROW_251, 251u8) && row_oriented(TRI_ROW_251, 251u8),
        row_checked(TRI_ROW_252, 252u8) && row_covers(TRI_ROW_252, 252u8) && row_oriented(TRI_ROW_252, 252u8),
        row_checked(TRI_ROW_253, 253u8) && row_covers(TRI_ROW_253, 253u8) && row_oriented(TRI_ROW_253, 253u8),
        row_checked(TRI_ROW_254, 254u8) && row_covers(TRI_ROW_254, 254u8) && row_oriented(TRI_ROW_254, 254u8),
        row_checked(TRI_ROW_255, 255u8) && row_covers(TRI_ROW_255, 255u8) && row_oriented(TRI_ROW_255, 255u8),
{
    assert(
        row_entries_checked(9i8, 10i8, 8i8, 10i8, 11i8, 8i8, -1i8, -1i8, -1i8, -1i8, -1i8, -1i8, -1i8, -1i8, -1i8, -1i8, 240u8) && row_entries_cover(9i8, 10i8, 8i8, 10i8, 11i8, 8i8, -1i8, -1i8, -1i8, -1i8, -1i8, -1i8, -1i8, -1i8, -1i8, -1i8, 240u8) && row_entries_oriented(9i8, 10i8, 8i8, 10i8, 11i8, 8i8, -1i8, -1i8, -1i8, -1i8, -1i8, -1i8, -1i8, -1i8, -1i8, -1i8, 240u8) &&
        row_entries_checked(3i8, 0i8, 9i8, 3i8, 9i8, 11i8, 11i8, 9i8, 10i8, -1i8, -1i8, -1i8, -1i8, -1i8, -1i8, -1i8, 241u8) && row_entries_cover(3i8, 0i8, 9i8, 3i8, 9i8, 11i8, 11i8, 9i8, 10i8, -1i8, -1i8, -1i8, -1i8, -1i8, -1i8, -1i8, 241u8) && row_entries_oriented(3i8, 0i8, 9i8, 3i8, 9i8, 11i8, 11i8, 9i8, 10i8, -1i8, -1i8, -1i8, -1i8, -1i8, -1i8, -1i8, 241u8) &&
        row_entries_checked(0i8, 1i8, 10i8, 0i8, 10i8, 8i8, 8i8, 10i8, 11i8, -1i8, -1i8, -1i8, -1i8, -1i8, -1i8, -1i8, 242u8) && row_entries_cover(0i8, 1i8, 10i8, 0i8, 10i8, 8i8, 8i8, 10i8, 11i8, -1i8, -1i8, -1i8, -1i8, -1i8, -1i8, -1i8, 242u8) && row_entries_oriented(0i8, 1i8, 10i8, 0i8, 10i8, 8i8, 8i8, 10i8, 11i8, -1i8, -1i8, -1i8, -1i8, -1i8, -1i8, -1i8, 242u8) &&
        row_entries_checked(3i8, 1i8, 10i8, 11i8, 3i8, 10i8, -1i8, -1i8, -1i8, -1i8, -1i8, -1i8, -1i8, -1i8, -1i8, -1i8, 243u8) && row_entries_cover(3i8, 1i8, 10i8, 11i8, 3i8, 10i8, -1i8, -1i8, -1i8, -1i8, -1i8, -1i8, -1i8, -1i8, -1i8, -1i8, 243u8) && row_entries_oriented(3i8, 1i8, 10i8, 11i8, 3i8, 10i8, -1i8, -1i8, -1i8, -1i8, -1i8, -1i8, -1i8, -1i8, -1i8, -1i8, 243u8) &&
        row_entries_checked(1i8, 2i8, 11i8, 1i8, 11i8, 9i8, 9i8, 11i8, 8i8, -1i8, -1i8, -1i8, -1i8, -1i8, -1i8, -1i8, 244u8) && row_entries_cover(1i8, 2i8, 11i8, 1i8, 11i8, 9i8, 9i8, 11i8, 8i8, -1i8, -1i8, -1i8, -1i8, -1i8, -1i8, -1i8, 244u8) && row_entries_oriented(1i8, 2i8, 11i8, 1i8, 11i8, 9i8, 9i8, 11i8, 8i8, -1i8, -1i8, -1i8, -1i8, -1i8, -1i8, -1i8, 244u8) &&
        row_entries_checked(3i8, 0i8, 9i8, 3i8, 9i8, 11i8, 1i8, 2i8, 9i8, 2i8, 11i8, 9i8, -1i8, -1i8, -1i8, -1i8, 245u8) && row_entries_cover(3i8, 0i8, 9i8, 3i8, 9i8, 11i8, 1i8, 2i8, 9i8, 2i8, 11i8, 9i8, -1i8, -1i8, -1i8, -1i8, 245u8) && row_entries_oriented(3i8, 0i8, 9i8, 3i8, 9i8, 11i8, 1i8, 2i8, 9i8, 2i8, 11i8, 9i8, -1i8, -1i8, -1i8, -1i8, 245u8) &&
        row_entries_checked(0i8, 2i8, 11i8, 8i8, 0i8, 11i8, -1i8, -1i8, -1i8, -1i8, -1i8, -1i8, -1i8, -1i8, -1i8, -1i8, 246u8) && row_entries_cover(0i8, 2i8, 11i8, 8i8, 0i8, 11i8, -1i8, -1i8, -1i8, -1i8, -1i8, -1i8, -1i8, -1i8, -1i8, -1i8, 246u8) && row_entries_oriented(0i8, 2i8, 11i8, 8i8, 0i8, 11i8, -1i8, -1i8, -1i8, -1i8, -1i8, -1i8, -1i8, -1i8, -1i8, -1i8, 246u8) &&
        row_entries_checked(3i8, 2i8, 11i8, -1i8, -1i8, -1i8, -1i8, -1i8, -1i8, -1i8, -1i8, -1i8, -1i8, -1i8, -1i8, -1i8, 247u8) && row_entries_cover(3i8, 2i8, 11i8, -1i8, -1i8, -1i8, -1i8, -1i8, -1i8, -1i8, -1i8, -1i8, -1i8, -1i8, -1i8, -1i8, 247u8) && row_entries_oriented(3i8, 2i8, 11i8, -1i8, -1i8, -1i8, -1i8, -1i8, -1i8, -1i8, -1i8, -1i8, -1i8, -1i8, -1i8, -1i8, 247u8) &&
        row_entries_checked(2i8, 3i8, 8i8, 2i8, 8i8, 10i8, 10i8, 8i8, 9i8, -1i8, -1i8, -1i8, -1i8, -1i8, -1i8, -1i8, 248u8) && row_entries_cover(2i8, 3i8, 8i8, 2i8, 8i8, 10i8, 10i8, 8i8, 9i8, -1i8, -1i8, -1i8, -1i8, -1i8, -1i8, -1i8, 248u8) && row_entries_oriented(2i8, 3i8, 8i8, 2i8, 8i8, 10i8, 10i8, 8i8, 9i8, -1i8, -1i8, -1i8, -1i8, -1i8, -1i8, -1i8, 248u8) &&
        row_entries_checked(9i8, 10i8, 2i8, 0i8, 9i8, 2i8, -1i8, -1i8, -1i8, -1i8, -1i8, -1i8, -1i8, -1i8, -1i8, -1i8, 249u8) && row_entries_cover(9i8, 10i8, 2i8, 0i8, 9i8, 2i8, -1i8, -1i8, -1i8, -1i8, -1i8, -1i8, -1i8, -1i8, -1i8, -1i8, 249u8) && row_entries_oriented(9i8, 10i8, 2i8, 0i8, 9i8, 2i8, -1i8, -1i8, -1i8, -1i8, -1i8, -1i8, -1i8, -1i8, -1i8, -1i8, 249u8) &&
        row_entries_checked(2i8, 3i8, 8i8, 2i8, 8i8, 10i8, 0i8, 1i8, 8i8, 1i8, 10i8, 8i8, -1i8, -1i8, -1i8, -1i8, 250u8) && row_entries_cover(2i8, 3i8, 8i8, 2i8, 8i8, 10i8, 0i8, 1i8, 8i8, 1i8, 10i8, 8i8, -1i8, -1i8, -1i8, -1i8, 250u8) && row_entries_oriented(2i8, 3i8, 8i8, 2i8, 8i8, 10i8, 0i8, 1i8, 8i8, 1i8, 10i8, 8i8, -1i8, -1i8, -1i8, -1i8, 250u8) &&
        row_entries_checked(1i8, 10i8, 2i8, -1i8, -1i8, -1i8, -1i8, -1i8, -1i8, -1i8, -1i8, -1i8, -1i8, -1i8, -1i8, -1i8, 251u8) && row_entries_cover(1i8, 10i8, 2i8, -1i8, -1i8, -1i8, -1i8, -1i8, -1i8, -1i8, -1i8, -1i8, -1i8, -1i8, -1i8, -1i8, 251u8) && row_entries_oriented(1i8, 10i8, 2i8, -1i8, -1i8, -1i8, -1i8, -1i8, -1i8, -1i8, -1i8, -1i8, -1i8, -1i8, -1i8, -1i8, 251u8) &&
        row_entries_checked(1i8, 3i8, 8i8, 9i8, 1i8, 8i8, -1i8, -1i8, -1i8, -1i8, -1i8, -1i8, -1i8, -1i8, -1i8, -1i8, 252u8) && row_entries_cover(1i8, 3i8, 8i8, 9i8, 1i8, 8i8, -1i8, -1i8, -1i8, -1i8, -1i8, -1i8, -1i8, -1i8, -1i8, -1i8, 252u8) && row_entries_oriented(1i8, 3i8, 8i8, 9i8, 1i8, 8i8, -1i8, -1i8, -1i8, -1i8, -1i8, -1i8, -1i8, -1i8, -1i8, -1i8, 252u8) &&
        row_entries_checked(0i8, 9i8, 1i8, -1i8, -1i8, -1i8, -1i8, -1i8, -1i8, -1i8, -1i8, -1i8, -1i8, -1i8, -1i8, -1i8, 253u8) && row_entries_cover(0i8, 9i8, 1i8, -1i8, -1i8, -1i8, -1i8, -1i8, -1i8, -1i8, -1i8, -1i8, -1i8, -1i8, -1i8, -1i8, 253u8) && row_entries_oriented(0i8, 9i8, 1i8, -1i8, -1i8, -1i8, -1i8, -1i8, -1i8, -1i8, -1i8, -1i8, -1i8, -1i8, -1i8, -1i8, 253u8) &&
        row_entries_checked(0i8, 3i8, 8i8, -1i8, -1i8, -1i8, -1i8, -1i8, -1i8, -1i8, -1i8, -1i8, -1i8, -1i8, -1i8, -1i8, 254u8) && row_entries_cover(0i8, 3i8, 8i8, -1i8, -1i8, -1i8, -1i8, -1i8, -1i8, -1i8, -1i8, -1i8, -1i8, -1i8, -1i8, -1i8, 254u8) && row_entries_oriented(0i8, 3i8, 8i8, -1i8, -1i8, -1i8, -1i8, -1i8, -1i8, -1i8, -1i8, -1i8, -1i8, -1i8, -1i8, -1i8, 254u8) &&
        row_entries_checked(-1i8, -1i8, -1i8, -1i8, -1i8, -1i8, -1i8, -1i8, -1i8, -1i8, -1i8, -1i8, -1i8, -1i8, -1i8, -1i8, 255u8) && row_entries_cover(-1i8, -1i8, -1i8, -1i8, -1i8, -1i8, -1i8, -1i8, -1i8, -1i8, -1i8, -1i8, -1i8, -1i8, -1i8, -1i8, 255u8) && row_entries_oriented(-1i8, -1i8, -1i8, -1i8, -1i8, -1i8, -1i8, -1i8, -1i8, -1i8, -1i8, -1i8, -1i8, -1i8, -1i8, -1i8, 255u8)
    ) by (bit_vector);
}

/// Every row of the table, read three entries at a time until one is `-1`,
/// names only edges whose two corners differ in the row's corner code,
/// holds that `-1`, names every such edge, and has every triangle facing
/// the set corners.
pub proof fn lemma_tri_rows_checked(code: u8)
    ensures
        row_checked(tri_row(code), code),
        row_covers(tri_row(code), code),
        row_oriented(tri_row(code), code),
{
    if code / 16 == 0 {
        lemma_rows_checked_0();
    } else if code / 16 == 1 {
        lemma_rows_checked_1();
    } else if code / 16 == 2 {
        lemma_rows_checked_2();
    } else if code / 16 == 3 {
        lemma_rows_checked_3();
    } else if code / 16 == 4 {
        lemma_rows_checked_4();
    } else if code / 16 == 5 {
        lemma_rows_checked_5();
    } else if code / 16 == 6 {
        lemma_rows_checked_6();
    } else if code / 16 == 7 {
        lemma_rows_checked_7();
    } else if code / 16 == 8 {
        lemma_rows_checked_8();
    } else if code / 16 == 9 {
        lemma_rows_checked_9();
    } else if code / 16 == 10 {
        lemma_rows_checked_10();
    } else if code / 16 == 11 {
        lemma_rows_checked_11();
    } else if code / 16 == 12 {
        lemma_rows_checked_12();
    } else if code / 16 == 13 {
        lemma_rows_checked_13();
    } else if code / 16 == 14 {
        lemma_rows_checked_14();
    } else {
        lemma_rows_checked_15();
    }
}

} // verus!
